use char_count_rpc::{json_rpc_handler, CharCountParams, CharCountRequest};

const ID: &str = "00000000-0000-0000-0000-000000000000";

fn request(method: &str, some_string: &str) -> CharCountRequest {
    CharCountRequest {
        id: ID.to_owned(),
        jsonrpc: "2.0".to_owned(),
        method: method.to_owned(),
        params: CharCountParams {
            some_string: some_string.to_owned(),
        },
    }
}

fn success_body(count: i32) -> String {
    format!(
        "{{\"id\":\"{}\",\"jsonrpc\":\"2.0\",\"result\":{{\"count\":{}}}}}",
        ID, count
    )
}

fn check_counts(key_values: Vec<(&str, i32)>) {
    for key_value in key_values {
        let resp = json_rpc_handler(&request("char_count", key_value.0));
        assert_eq!(resp.status, 200);
        assert_eq!(resp.body, success_body(key_value.1));
    }
}

fn check_not_found() {
    let resp = json_rpc_handler(&request("wrong", "Oliver"));
    assert_eq!(resp.status, 200);
    assert_eq!(
        resp.body,
        r##"{"error":{"code":-32601,"message":"Method not found"},"id":"00000000-0000-0000-0000-000000000000","jsonrpc":"2.0"}"##
    );
}

#[test]
fn main_test_happy_paths() {
    check_counts(vec![("", 0), ("Oliver", 6)]);
}

#[test]
fn main_test_other_possibilities() {
    check_counts(vec![
        (" ", 0),
        ("Oliver ", 6),
        (" Oliver", 6),
        (" Oliver ", 6),
        ("Olive\u{301}r", 6),
    ]);
}

#[test]
fn main_test_non_existant_method() {
    check_not_found();
}

#[test]
fn json_rpc_test_happy_paths() {
    check_counts(vec![("", 0), ("Oliver", 6)]);
}

#[test]
fn json_rpc_test_other_possibilities() {
    // `Ã` and `Å` are letters of their own, not combining marks: each is a
    // grapheme cluster, so the last string counts eight.
    check_counts(vec![
        (" ", 0),
        ("Oliver ", 6),
        (" Oliver", 6),
        (" Oliver ", 6),
        ("Olive\u{c3}\u{c5}r", 8),
    ]);
}

#[test]
fn json_rpc_test_non_existant_method() {
    check_not_found();
}

#[test]
fn end_to_end_char_count() {
    let resp = json_rpc_handler(&request("char_count", " Oliver "));
    assert_eq!(resp.status, 200);
    assert_eq!(
        resp.body,
        r#"{"id":"00000000-0000-0000-0000-000000000000","jsonrpc":"2.0","result":{"count":6}}"#
    );
}

#[test]
fn unknown_methods_echo_id_and_version() {
    for method in ["", "wrong", "Char_count", "char_count "] {
        let req = CharCountRequest {
            id: "req-7".to_owned(),
            jsonrpc: "1.0".to_owned(),
            method: method.to_owned(),
            params: CharCountParams {
                some_string: "anything".to_owned(),
            },
        };
        let resp = json_rpc_handler(&req);
        assert_eq!(resp.status, 200);
        assert_eq!(
            resp.body,
            r#"{"error":{"code":-32601,"message":"Method not found"},"id":"req-7","jsonrpc":"1.0"}"#
        );
    }
}

#[test]
fn ids_are_escaped_in_the_body() {
    let req = CharCountRequest {
        id: "a\"b\\c\nd\u{1}\u{1f}\t\r\u{8}\u{c}é".to_owned(),
        jsonrpc: "2.0".to_owned(),
        method: "char_count".to_owned(),
        params: CharCountParams {
            some_string: "xy".to_owned(),
        },
    };
    let resp = json_rpc_handler(&req);
    assert_eq!(
        resp.body,
        "{\"id\":\"a\\\"b\\\\c\\nd\\u0001\\u001f\\t\\r\\b\\fé\",\"jsonrpc\":\"2.0\",\"result\":{\"count\":2}}"
    );
}
