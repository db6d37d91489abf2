//! Trimming and grapheme counting.
use unicode_segmentation::UnicodeSegmentation;
use vstd::prelude::*;

verus! {

/// Whether `c` has the Unicode `White_Space` property.
pub open spec fn is_white_space(c: char) -> bool {
    let u = c as u32;
    (0x09 <= u && u <= 0x0d) || u == 0x20 || u == 0x85 || u == 0xa0 || u == 0x1680 || (0x2000
        <= u && u <= 0x200a) || u == 0x2028 || u == 0x2029 || u == 0x202f || u == 0x205f || u
        == 0x3000
}

/// `s` with its leading and trailing white space removed.
pub open spec fn trimmed(s: Seq<char>) -> Seq<char>
    decreases s.len(),
{
    if s.len() > 0 && is_white_space(s[0]) {
        trimmed(s.drop_first())
    } else if s.len() > 0 && is_white_space(s.last()) {
        trimmed(s.drop_last())
    } else {
        s
    }
}

/// The number of extended grapheme clusters of `s`.
pub uninterp spec fn grapheme_count(s: Seq<char>) -> nat;

/// The number of user-perceived characters of `s` once it is trimmed.
pub open spec fn char_count_of(s: Seq<char>) -> nat {
    grapheme_count(trimmed(s))
}

/// Relies on `str::trim`, which removes leading and trailing characters with
/// the Unicode `White_Space` property.
#[verifier::external_body]
fn trim(s: &str) -> (r: &str)
    ensures
        r@ == trimmed(s@),
{
    s.trim()
}

/// Relies on `UnicodeSegmentation::graphemes(true)`: the string is split into
/// extended grapheme clusters, each a non-empty run of its characters.
#[verifier::external_body]
fn count_graphemes(s: &str) -> (r: usize)
    ensures
        r as nat == grapheme_count(s@),
        r <= s@.len(),
        r == 0 <==> s@.len() == 0,
{
    s.graphemes(true).count()
}

/// Trimming never makes a string longer.
pub proof fn lemma_trimmed_len(s: Seq<char>)
    ensures
        trimmed(s).len() <= s.len(),
    decreases s.len(),
{
    if s.len() > 0 && is_white_space(s[0]) {
        lemma_trimmed_len(s.drop_first());
    } else if s.len() > 0 && is_white_space(s.last()) {
        lemma_trimmed_len(s.drop_last());
    }
}

/// Whether every character of `w` is white space.
pub open spec fn all_white_space(w: Seq<char>) -> bool {
    forall|i: int| 0 <= i < w.len() ==> is_white_space(#[trigger] w[i])
}

/// A trimmed string neither starts nor ends with white space.
pub proof fn lemma_trimmed_ends(s: Seq<char>)
    ensures
        trimmed(s).len() > 0 ==> !is_white_space(trimmed(s)[0]) && !is_white_space(
            trimmed(s).last(),
        ),
    decreases s.len(),
{
    if s.len() > 0 && is_white_space(s[0]) {
        lemma_trimmed_ends(s.drop_first());
    } else if s.len() > 0 && is_white_space(s.last()) {
        lemma_trimmed_ends(s.drop_last());
    }
}

/// Trimming twice is trimming once.
pub proof fn lemma_trimmed_idempotent(s: Seq<char>)
    ensures
        trimmed(trimmed(s)) == trimmed(s),
{
    lemma_trimmed_ends(s);
}

/// White space in front of a string is trimmed away.
proof fn lemma_trimmed_prefix(w: Seq<char>, t: Seq<char>)
    requires
        all_white_space(w),
    ensures
        trimmed(w + t) == trimmed(t),
    decreases w.len(),
{
    if w.len() > 0 {
        assert((w + t)[0] == w[0]);
        assert((w + t).drop_first() == w.drop_first() + t);
        lemma_trimmed_prefix(w.drop_first(), t);
    } else {
        assert(w + t == t);
    }
}

/// White space behind a string is trimmed away.
proof fn lemma_trimmed_suffix(t: Seq<char>, w: Seq<char>)
    requires
        all_white_space(w),
    ensures
        trimmed(t + w) == trimmed(t),
    decreases t.len() + w.len(),
{
    if t.len() > 0 && is_white_space(t[0]) {
        assert((t + w)[0] == t[0]);
        assert((t + w).drop_first() == t.drop_first() + w);
        lemma_trimmed_suffix(t.drop_first(), w);
    } else if w.len() > 0 {
        if t.len() == 0 {
            assert(t + w == w + t);
            lemma_trimmed_prefix(w, t);
        } else {
            assert((t + w)[0] == t[0]);
            assert((t + w).last() == w.last());
            assert((t + w).drop_last() == t + w.drop_last());
            lemma_trimmed_suffix(t, w.drop_last());
        }
    } else {
        assert(t + w == t);
    }
}

/// Leading and trailing white space never changes the count: counting a
/// string gives what counting its trimmed form gives, and what counting it
/// with any white space added around it gives.
pub proof fn lemma_char_count_ignores_outer_white_space(
    s: Seq<char>,
    before: Seq<char>,
    after: Seq<char>,
)
    requires
        all_white_space(before),
        all_white_space(after),
    ensures
        char_count_of(s) == char_count_of(trimmed(s)),
        char_count_of(before + s + after) == char_count_of(s),
{
    lemma_trimmed_idempotent(s);
    assert(before + s + after == before + (s + after));
    lemma_trimmed_prefix(before, s + after);
    lemma_trimmed_suffix(s, after);
}

/// Counts the user-perceived characters of `s`, ignoring leading and trailing
/// white space.
pub fn char_count(s: &str) -> (r: usize)
    ensures
        r as nat == char_count_of(s@),
        r <= s@.len(),
{
    let t = trim(s);
    proof {
        lemma_trimmed_len(s@);
    }
    count_graphemes(t)
}

} // verus!
