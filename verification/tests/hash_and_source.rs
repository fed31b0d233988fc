use module_pipeline::hash::ContentHasher;
use module_pipeline::source::{
    bytes_to_text, nesting, text_to_bytes, Content, Source, SourceMap, MAX_NESTING,
};

#[test]
fn digest_of_nothing_is_the_offset() {
    assert_eq!(ContentHasher::new().digest(), "cbf29ce484222325");
}

#[test]
fn digest_of_known_texts() {
    let mut h = ContentHasher::new();
    h.write_str("a");
    assert_eq!(h.digest(), "af63dc4c8601ec8c");
    let mut h = ContentHasher::new();
    h.write(b"foobar");
    assert_eq!(h.digest(), "85944171f73967e8");
}

#[test]
fn writing_in_pieces_is_writing_at_once() {
    let mut a = ContentHasher::new();
    a.write(b"foo");
    a.write(b"bar");
    let mut b = ContentHasher::new();
    b.write(b"foobar");
    assert_eq!(a.digest(), b.digest());
}

#[test]
fn salt_is_written_first() {
    let salted = ContentHasher::with_salt(&Some("a".to_string()));
    assert_eq!(salted.digest(), "af63dc4c8601ec8c");
    assert_eq!(ContentHasher::with_salt(&None).digest(), "cbf29ce484222325");
}

#[test]
fn bytes_become_text_with_replacements() {
    assert_eq!(bytes_to_text(&vec![104, 105]), "hi");
    assert_eq!(bytes_to_text(&vec![0xff, 104]), "\u{fffd}h");
    assert_eq!(text_to_bytes("h\u{e9}"), vec![104, 0xc3, 0xa9]);
}

#[test]
fn content_converts_both_ways() {
    assert!(Content::Buffer(vec![1]).is_buffer());
    assert!(!Content::String("x".to_string()).is_buffer());
    assert_eq!(Content::String("ab".to_string()).into_bytes(), vec![97, 98]);
    assert_eq!(Content::Buffer(vec![97, 0xff]).into_string_lossy(), "a\u{fffd}");
    assert_eq!(Content::Buffer(vec![1, 2]).duplicate().into_bytes(), vec![1, 2]);
}

#[test]
fn source_map_is_read_from_json() {
    let json = br#"{"version":3,"sources":["a.js"],"names":[],"mappings":"AAAA"}"#.to_vec();
    let map = SourceMap::from_slice(&json).unwrap();
    assert_eq!(map.to_bytes(), json);
    let written = map.to_json();
    assert!(written.contains("\"mappings\":\"AAAA\""));
    assert!(written.contains("\"sources\":[\"a.js\"]"));
    assert!(SourceMap::from_slice(&written.into_bytes()).is_ok());
    assert_eq!(map.duplicate().to_bytes(), json);
}

#[test]
fn refused_source_map_gives_the_readers_message() {
    let err = SourceMap::from_slice(&b"not json".to_vec()).unwrap_err();
    assert!(!err.message.is_empty());
    assert_ne!(err.message, "not json");
}

#[test]
fn source_content_is_its_bytes() {
    assert_eq!(Source::RawBuffer(vec![9, 8]).content_bytes(), vec![9, 8]);
    assert_eq!(Source::RawText("ab".to_string()).content_bytes(), vec![97, 98]);
    let original = Source::Original { value: "x".to_string(), name: "n".to_string() };
    assert_eq!(original.duplicate().content_bytes(), vec![120]);
}

#[test]
fn nesting_counts_arrays_and_objects_outside_strings() {
    assert_eq!(nesting(&b"".to_vec()), 0);
    assert_eq!(nesting(&b"{\"a\":[1,[2]]}".to_vec()), 3);
    assert_eq!(nesting(&b"[][][]".to_vec()), 1);
    assert_eq!(nesting(&b"\"[[[[\"".to_vec()), 0);
    assert_eq!(nesting(&b"[\"a\\\"[[\",[]]".to_vec()), 2);
    assert_eq!(nesting(&b"]]][".to_vec()), 1);
}

#[test]
fn source_map_nested_too_deeply_is_refused() {
    let mut json = vec![b'['; MAX_NESTING + 1];
    json.extend(vec![b']'; MAX_NESTING + 1]);
    let err = SourceMap::from_slice(&json).unwrap_err();
    assert_eq!(err.message, "Source map is nested too deeply");
    let mut huge = vec![b'['; 400_000];
    huge.extend(vec![b']'; 400_000]);
    assert_eq!(SourceMap::from_slice(&huge).unwrap_err().message, "Source map is nested too deeply");
    let mut allowed = vec![b'['; MAX_NESTING];
    allowed.extend(vec![b']'; MAX_NESTING]);
    assert_ne!(SourceMap::from_slice(&allowed).unwrap_err().message, "Source map is nested too deeply");
}
