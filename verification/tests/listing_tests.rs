use filehost::index::FileIndex;
use filehost::listing::{
    download_links_joined, get_download_links, join_strings, json_listing, shell_listing,
    shell_quote,
};

#[test]
fn shell_quoting_name_with_space() {
    assert_eq!(shell_quote("a b"), "'a b'");
}

#[test]
fn shell_quoting_name_with_quote() {
    assert_eq!(shell_quote("a'b"), "a\\'b");
}

#[test]
fn shell_quoting_name_with_quote_and_space() {
    assert_eq!(shell_quote("a' b"), "'a'\\'' b'");
}

#[test]
fn shell_quoting_plain_name() {
    assert_eq!(shell_quote("ab.txt"), "ab.txt");
}

#[test]
fn shell_listing_joins_with_spaces() {
    let ix = FileIndex::build(&vec!["/d/a b".to_string(), "/d/c.txt".to_string()]).unwrap();
    assert_eq!(shell_listing(&ix), "'a b' c.txt");
}

#[test]
fn json_listing_format() {
    let ix = FileIndex::build(&vec!["/d/a.txt".to_string(), "/d/b\"q".to_string()]).unwrap();
    assert_eq!(json_listing(&ix), "[\"a.txt\", \"b\\\"q\"]");
}

#[test]
fn json_listing_escapes_control_characters() {
    let ix = FileIndex::build(&vec!["/d/a\nb".to_string(), "/d/c\td".to_string()]).unwrap();
    assert_eq!(json_listing(&ix), "[\"a\\u000ab\", \"c\\u0009d\"]");
}

#[test]
fn json_listing_of_empty_index() {
    let ix = FileIndex { names: Vec::new() };
    assert_eq!(json_listing(&ix), "[]");
}

#[test]
fn download_links_one_anchor_per_file() {
    let ix = FileIndex::build(&vec!["/d/a.txt".to_string(), "/d/b.txt".to_string()]).unwrap();
    let links = get_download_links(&ix);
    assert_eq!(
        links,
        vec![
            "<a href=\"/a.txt\" download></a>".to_string(),
            "<a href=\"/b.txt\" download></a>".to_string(),
        ]
    );
    assert_eq!(
        download_links_joined(&ix),
        "<a href=\"/a.txt\" download></a>\n<a href=\"/b.txt\" download></a>"
    );
}

#[test]
fn join_with_separator() {
    let parts = vec!["x".to_string(), "y".to_string(), "z".to_string()];
    assert_eq!(join_strings(&parts, ", "), "x, y, z");
    let one = vec!["only".to_string()];
    assert_eq!(join_strings(&one, ", "), "only");
    let none: Vec<String> = Vec::new();
    assert_eq!(join_strings(&none, ", "), "");
}
