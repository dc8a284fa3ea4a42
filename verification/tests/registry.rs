use ini::Ini;
use sourcegen::sources::{init, new, LoadError, LOCAL_NAME, LOCAL_URL};
use sourcegen::store::Newline;

fn general(doc: &Ini) -> Vec<(String, String)> {
    match doc.section(None::<String>) {
        Some(section) => section.iter().map(|(k, v)| (k.to_string(), v.to_string())).collect(),
        None => Vec::new(),
    }
}

#[test]
fn fresh_registry_holds_local_only() {
    let doc = new();
    assert_eq!(general(&doc), vec![("local".to_string(), "LOCAL".to_string())]);
    assert_eq!(doc.len(), 1);
    assert_eq!(LOCAL_NAME, "local");
    assert_eq!(LOCAL_URL, "LOCAL");
}

#[test]
fn fresh_registry_renders_one_line() {
    assert_eq!(sourcegen::sources::write(&new(), Newline::Lf), b"local=LOCAL\n".to_vec());
    assert_eq!(sourcegen::sources::write(&new(), Newline::CrLf), b"local=LOCAL\r\n".to_vec());
}

#[test]
fn init_reads_what_write_rendered() {
    let bytes = sourcegen::sources::write(&new(), Newline::Lf);
    let doc = init(&bytes).unwrap();
    assert_eq!(general(&doc), vec![("local".to_string(), "LOCAL".to_string())]);
}

#[test]
fn init_reads_entries_in_order() {
    let doc = init(b"local=LOCAL\ngithub=https://github.com\n").unwrap();
    assert_eq!(
        general(&doc),
        vec![
            ("local".to_string(), "LOCAL".to_string()),
            ("github".to_string(), "https://github.com".to_string()),
        ]
    );
}

#[test]
fn init_reads_empty_file_as_empty_registry() {
    let doc = init(b"").unwrap();
    assert_eq!(general(&doc), Vec::<(String, String)>::new());
}

#[test]
fn init_skips_byte_order_mark() {
    let doc = init(b"\xEF\xBB\xBFgithub=https://github.com\n").unwrap();
    assert_eq!(doc.get_from(None::<String>, "github"), Some("https://github.com"));
    assert_eq!(general(&doc).len(), 1);
}

#[test]
fn init_takes_short_input_whole() {
    let doc = init(b"a=").unwrap();
    assert_eq!(doc.get_from(None::<String>, "a"), Some(""));
}

#[test]
fn init_skips_only_a_whole_mark() {
    assert_eq!(init(b"\xEF\xBBa=b\n").err(), Some(LoadError::Encoding));
}

#[test]
fn init_rejects_bytes_that_are_not_text() {
    assert_eq!(init(b"github=\xFF\xFE\n").err(), Some(LoadError::Encoding));
}

#[test]
fn init_rejects_mark_followed_by_bad_bytes() {
    assert_eq!(init(b"\xEF\xBB\xBF\x80").err(), Some(LoadError::Encoding));
}

#[test]
fn init_rejects_text_that_is_no_document() {
    assert_eq!(init(b"[unfinished\n").err(), Some(LoadError::Syntax));
    assert_eq!(init(b"=https://github.com\n").err(), Some(LoadError::Syntax));
}

#[test]
fn write_keeps_every_entry() {
    let doc = init(b"local=LOCAL\ngithub=https://github.com\n").unwrap();
    assert_eq!(sourcegen::sources::write(&doc, Newline::Lf), b"local=LOCAL\ngithub=https://github.com\n".to_vec());
    assert_eq!(
        sourcegen::sources::write(&doc, Newline::CrLf),
        b"local=LOCAL\r\ngithub=https://github.com\r\n".to_vec()
    );
}

#[test]
fn fresh_registry_has_no_named_section() {
    let names: Vec<Option<String>> =
        new().sections().map(|name| name.map(|name| name.to_string())).collect();
    assert_eq!(names, vec![None]);
}

#[test]
fn init_reads_named_sections_apart_from_the_registry() {
    let doc = init(b"local=LOCAL\n[mirrors]\nfast=https://fast.example.com\n").unwrap();
    assert_eq!(general(&doc), vec![("local".to_string(), "LOCAL".to_string())]);
    assert_eq!(doc.get_from(Some("mirrors"), "fast"), Some("https://fast.example.com"));
    assert_eq!(doc.get_from(None::<String>, "fast"), None);
}
