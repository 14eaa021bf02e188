use baidupan_sdk::codec::{
    append_json_move_list, append_json_path_list, append_json_rename_list, append_json_string,
    append_json_string_list,
};

fn json_string_of(s: &str) -> String {
    let mut out: Vec<u8> = Vec::new();
    append_json_string(&mut out, s);
    String::from_utf8(out).unwrap()
}

#[test]
fn json_string_plain() {
    assert_eq!(json_string_of("/apps/t.txt"), "\"/apps/t.txt\"");
}

#[test]
fn json_string_escapes_quote_backslash_and_controls() {
    assert_eq!(json_string_of("a\"b\\c\nd\te\rf"), "\"a\\\"b\\\\c\\nd\\te\\rf\"");
    assert_eq!(json_string_of("\u{0008}\u{000c}\u{0001}\u{001f}"), "\"\\b\\f\\u0001\\u001f\"");
}

#[test]
fn json_string_matches_reference_serializer() {
    // The framing must be byte-identical to what the provider's clients
    // produce with a stock JSON serializer.
    let cases = ["plain", "with \"quotes\" and \\slashes\\", "control\u{0007}byte", "路径/文件.txt"];
    for c in cases {
        assert_eq!(json_string_of(c), serde_json::to_string(c).unwrap());
    }
}

#[test]
fn string_list_framing() {
    let mut out: Vec<u8> = Vec::new();
    let items = vec!["aa".to_string(), "bb".to_string()];
    append_json_string_list(&mut out, &items);
    assert_eq!(String::from_utf8(out).unwrap(), "[\"aa\",\"bb\"]");

    let mut empty: Vec<u8> = Vec::new();
    append_json_string_list(&mut empty, &Vec::new());
    assert_eq!(String::from_utf8(empty).unwrap(), "[]");
}

#[test]
fn string_list_matches_reference_serializer() {
    let items = vec!["d41d8cd98f00b204e9800998ecf8427e".to_string(), "a\"b".to_string()];
    let mut out: Vec<u8> = Vec::new();
    append_json_string_list(&mut out, &items);
    assert_eq!(String::from_utf8(out).unwrap(), serde_json::to_string(&items).unwrap());
}

#[test]
fn path_list_framing() {
    let mut out: Vec<u8> = Vec::new();
    let paths = vec!["/a".to_string(), "/b".to_string()];
    append_json_path_list(&mut out, &paths);
    assert_eq!(String::from_utf8(out).unwrap(), "[{\"path\":\"/a\"},{\"path\":\"/b\"}]");
}

#[test]
fn move_list_framing() {
    let mut out: Vec<u8> = Vec::new();
    let from = vec!["/a".to_string()];
    let to = vec!["/b".to_string()];
    append_json_move_list(&mut out, &from, &to);
    assert_eq!(
        String::from_utf8(out).unwrap(),
        "[{\"dest\":\"/b\",\"newname\":\"/b\",\"path\":\"/a\"}]"
    );
}

#[test]
fn rename_list_framing() {
    let mut out: Vec<u8> = Vec::new();
    append_json_rename_list(&mut out, "/a/old.txt", "new.txt");
    assert_eq!(
        String::from_utf8(out).unwrap(),
        "[{\"newname\":\"new.txt\",\"path\":\"/a/old.txt\"}]"
    );
}

#[test]
fn path_list_decodes_back() {
    let mut out: Vec<u8> = Vec::new();
    let paths = vec!["/with \"quote\"".to_string()];
    append_json_path_list(&mut out, &paths);
    let v: serde_json::Value = serde_json::from_slice(&out).unwrap();
    assert_eq!(v[0]["path"].as_str().unwrap(), "/with \"quote\"");
}
