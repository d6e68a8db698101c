use paperplane::json::{starts_with, Document};

fn document(text: &str) -> Document {
    Document::parse(text).expect("the text is JSON")
}

#[test]
fn parse_accepts_json_and_refuses_the_rest() {
    assert!(Document::parse("{}").is_some());
    assert!(Document::parse("[1, 2, 3]").is_some());
    assert!(Document::parse("null").is_some());
    assert!(Document::parse(" {\"a\": {\"b\": [true, 1.5, \"x\"]}} ").is_some());
    assert!(Document::parse("").is_none());
    assert!(Document::parse("not json").is_none());
    assert!(Document::parse("{\"a\": 1").is_none());
    assert!(Document::parse("{\"a\": 1} trailing").is_none());
    assert!(Document::parse("{'a': 1}").is_none());
}

#[test]
fn to_text_is_compact_with_sorted_keys() {
    assert_eq!(document("{ \"b\": 1,\n \"a\": \"x\" }").to_text(), "{\"a\":\"x\",\"b\":1}");
    assert_eq!(document("[ 1 , 2 ]").to_text(), "[1,2]");
    assert_eq!(document(" \"s\" ").to_text(), "\"s\"");
    assert_eq!(document("null").to_text(), "null");
    assert_eq!(
        document("{\"t\": \"line\\nbreak \\\"quoted\\\"\"}").to_text(),
        "{\"t\":\"line\\nbreak \\\"quoted\\\"\"}"
    );
}

#[test]
fn is_object_tells_objects_from_the_rest() {
    assert!(document("{}").is_object());
    assert!(document("{\"a\": 1}").is_object());
    assert!(!document("[]").is_object());
    assert!(!document("null").is_object());
    assert!(!document("\"text\"").is_object());
    assert!(!document("12").is_object());
    assert!(!document("true").is_object());
}

#[test]
fn has_sees_members_that_are_not_null() {
    let doc = document("{\"s\": \"x\", \"n\": 1, \"z\": null, \"o\": {}, \"f\": false}");
    assert!(doc.has("s"));
    assert!(doc.has("n"));
    assert!(doc.has("o"));
    assert!(doc.has("f"));
    assert!(!doc.has("z"));
    assert!(!doc.has("missing"));
    assert!(!document("[1]").has("0"));
    assert!(!document("null").has("s"));
}

#[test]
fn string_gives_string_members_only() {
    let doc = document("{\"s\": \"x\", \"e\": \"\", \"n\": 1, \"z\": null, \"a\": [\"x\"]}");
    assert_eq!(doc.string("s"), Some("x"));
    assert_eq!(doc.string("e"), Some(""));
    assert_eq!(doc.string("n"), None);
    assert_eq!(doc.string("z"), None);
    assert_eq!(doc.string("a"), None);
    assert_eq!(doc.string("missing"), None);
    assert_eq!(document("\"s\"").string("s"), None);
}

#[test]
fn set_string_inserts_a_member() {
    let mut doc = document("{\"a\": 1}");
    assert!(doc.set_string("@extra", "v".to_string()));
    assert_eq!(doc.string("@extra"), Some("v"));
    assert!(doc.has("a"));
    assert_eq!(doc.to_text(), "{\"@extra\":\"v\",\"a\":1}");
}

#[test]
fn set_string_replaces_a_member() {
    let mut doc = document("{\"k\": [1, 2], \"other\": \"stays\"}");
    assert!(doc.set_string("k", "now a string".to_string()));
    assert_eq!(doc.string("k"), Some("now a string"));
    assert_eq!(doc.string("other"), Some("stays"));
    assert_eq!(doc.to_text(), "{\"k\":\"now a string\",\"other\":\"stays\"}");
}

#[test]
fn set_string_leaves_what_is_no_object() {
    for text in ["[1,2]", "null", "\"s\"", "3", "true"] {
        let mut doc = document(text);
        assert!(!doc.set_string("k", "v".to_string()));
        assert_eq!(doc.to_text(), text);
        assert_eq!(doc.string("k"), None);
    }
}

#[test]
fn clone_keeps_the_document() {
    let doc = document("{\"@type\": \"ok\", \"n\": [1, {\"x\": null}]}");
    let copy = doc.clone();
    assert_eq!(copy.to_text(), doc.to_text());
    assert_eq!(copy.string("@type"), Some("ok"));
}

#[test]
fn values_go_in_and_out_unchanged() {
    let value: serde_json::Value = serde_json::from_str("{\"a\": [1, 2, {\"b\": \"c\"}]}").unwrap();
    let doc = Document::from_value(value.clone());
    assert_eq!(doc.to_text(), "{\"a\":[1,2,{\"b\":\"c\"}]}");
    assert_eq!(doc.into_value(), value);
}

#[test]
fn starts_with_compares_characters() {
    assert!(starts_with("update", "update"));
    assert!(starts_with("updateNewMessage", "update"));
    assert!(starts_with("anything", ""));
    assert!(starts_with("", ""));
    assert!(!starts_with("updat", "update"));
    assert!(!starts_with("", "update"));
    assert!(!starts_with("Update", "update"));
    assert!(!starts_with("xupdate", "update"));
    assert!(starts_with("\u{fc}pdate", "\u{fc}p"));
    assert!(!starts_with("\u{fc}pdate", "up"));
}

#[test]
fn type_tag_reads_the_discriminator() {
    assert_eq!(document("{\"@type\": \"ok\"}").type_tag(), Some("ok"));
    assert_eq!(document("{\"@type\": 5}").type_tag(), None);
    assert_eq!(document("{\"type\": \"ok\"}").type_tag(), None);
    assert_eq!(document("[]").type_tag(), None);
}

#[test]
fn is_update_goes_by_the_prefix() {
    assert!(document("{\"@type\": \"updateAuthorizationState\"}").is_update());
    assert!(document("{\"@type\": \"update\"}").is_update());
    assert!(document("{\"@type\": \"updates\"}").is_update());
    assert!(!document("{\"@type\": \"updat\"}").is_update());
    assert!(!document("{\"@type\": \"Update\"}").is_update());
    assert!(!document("{\"@type\": \"ok\"}").is_update());
    assert!(!document("{\"@type\": \"newupdate\"}").is_update());
    assert!(!document("{\"@type\": 1}").is_update());
    assert!(!document("{\"@extra\": \"update\"}").is_update());
    assert!(!document("\"update\"").is_update());
}

#[test]
fn set_type_tag_tags_a_request() {
    let mut doc = document("{\"chat_id\": 7}");
    assert!(doc.set_type_tag("getChat"));
    assert_eq!(doc.type_tag(), Some("getChat"));
    assert_eq!(doc.to_text(), "{\"@type\":\"getChat\",\"chat_id\":7}");
    let mut list = document("[7]");
    assert!(!list.set_type_tag("getChat"));
    assert_eq!(list.to_text(), "[7]");
}

#[test]
fn correlation_reads_the_identifier() {
    let doc = document("{\"@extra\": \"67e55044-10b1-426f-9247-bb680e5fe0c8\"}");
    assert_eq!(doc.correlation(), Some(0x67e55044_10b1_426f_9247_bb680e5fe0c8));
    assert_eq!(document("{\"@extra\": \"no identifier\"}").correlation(), None);
    assert_eq!(document("{\"@extra\": 17}").correlation(), None);
    assert_eq!(document("{}").correlation(), None);
    assert_eq!(document("[]").correlation(), None);
}

#[test]
fn set_correlation_makes_the_document_carry_the_identifier() {
    let mut doc = document("{\"@type\": \"getMe\"}");
    assert!(doc.set_correlation(0x0123456789abcdef0123456789abcdef));
    assert_eq!(doc.string("@extra"), Some("01234567-89ab-cdef-0123-456789abcdef"));
    assert_eq!(doc.correlation(), Some(0x0123456789abcdef0123456789abcdef));
    assert_eq!(
        doc.to_text(),
        "{\"@extra\":\"01234567-89ab-cdef-0123-456789abcdef\",\"@type\":\"getMe\"}"
    );
    let mut other = document("17");
    assert!(!other.set_correlation(1));
    assert_eq!(other.to_text(), "17");
}
