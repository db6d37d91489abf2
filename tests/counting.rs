use char_count_rpc::char_count;

#[test]
fn empty_and_blank_strings_count_zero() {
    assert_eq!(char_count(""), 0);
    assert_eq!(char_count("   "), 0);
    assert_eq!(char_count("\t\n \u{a0}\u{3000}"), 0);
}

#[test]
fn plain_name_counts_six() {
    assert_eq!(char_count("Oliver"), 6);
}

#[test]
fn combining_mark_joins_its_base() {
    assert_eq!(char_count("e\u{301}"), 1);
    assert_eq!(char_count("Olive\u{301}r"), 6);
    assert_eq!("Olive\u{301}r".chars().count(), 7);
}

#[test]
fn outer_white_space_is_ignored() {
    let core = "a b\u{301}c";
    assert_eq!(char_count(core), 4);
    assert_eq!(char_count(&format!(" \t{}\n\u{2003}", core)), 4);
    assert_eq!(char_count(core.trim()), char_count(core));
}

#[test]
fn inner_white_space_counts() {
    assert_eq!(char_count("  a  b  "), 4);
}

#[test]
fn emoji_sequences_are_single_characters() {
    // A family emoji joined by zero-width joiners and a flag.
    assert_eq!(char_count("\u{1f468}\u{200d}\u{1f469}\u{200d}\u{1f467}"), 1);
    assert_eq!(char_count("\u{1f1eb}\u{1f1f7}"), 1);
    assert_eq!(char_count("\r\n"), 0);
    assert_eq!(char_count("a\r\nb"), 3);
}
