use sql_demo::json::escape;
use sql_demo::query::execute_sql;

#[test]
fn escape_leaves_plain_text_alone() {
    assert_eq!(escape("foo bar"), "foo bar");
    assert_eq!(escape(""), "");
    assert_eq!(escape("caf\u{e9} \u{4e2d}"), "caf\u{e9} \u{4e2d}");
}

#[test]
fn escape_quotes_and_backslashes() {
    assert_eq!(escape("say \"hi\""), "say \\\"hi\\\"");
    assert_eq!(escape("a\\b"), "a\\\\b");
}

#[test]
fn escape_short_control_escapes() {
    assert_eq!(escape("\u{8}\t\n\u{c}\r"), "\\b\\t\\n\\f\\r");
}

#[test]
fn escape_other_controls_as_hex() {
    assert_eq!(escape("\u{0}"), "\\u0000");
    assert_eq!(escape("\u{1}"), "\\u0001");
    assert_eq!(escape("\u{b}"), "\\u000b");
    assert_eq!(escape("\u{1f}"), "\\u001f");
}

#[test]
fn echoed_query_is_escaped() {
    let r = execute_sql(String::from("he said \"go\"\n"));
    assert_eq!(
        r,
        Ok(String::from(
            "{\"error\":\"Query not supported in demo\",\"received_query\":\"he said \\\"go\\\"\\n\"}"
        ))
    );
}

#[test]
fn echoed_control_character_is_escaped() {
    let r = execute_sql(String::from("x\u{1f}y"));
    assert_eq!(
        r,
        Ok(String::from(
            "{\"error\":\"Query not supported in demo\",\"received_query\":\"x\\u001fy\"}"
        ))
    );
}
