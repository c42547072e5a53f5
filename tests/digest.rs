use scriptr::digest::{digest_hex, entry_file_name, path_key, ContentHasher};

#[test]
fn empty_input_digest() {
    assert_eq!(
        digest_hex(b""),
        "af1349b9f5f9a1a6a0404dea36dcc9499bcb25c9adc112b7cc9a93cae41f3262"
    );
}

#[test]
fn digest_matches_blake3() {
    let expected = blake3::hash(b"fn main() {}\n").to_hex().to_string();
    assert_eq!(digest_hex(b"fn main() {}\n"), expected);
    assert_eq!(expected.len(), 64);
}

#[test]
fn chunking_does_not_change_digest() {
    let data: Vec<u8> = (0..200_000u32).map(|i| (i % 251) as u8).collect();
    let whole = digest_hex(&data);
    let mut h = ContentHasher::new();
    for chunk in data.chunks(65536) {
        h.update(chunk);
    }
    assert_eq!(h.finish(), whole);
    let mut h = ContentHasher::new();
    for chunk in data.chunks(7) {
        h.update(chunk);
    }
    assert_eq!(h.finish(), whole);
}

#[test]
fn different_content_different_digest() {
    assert_ne!(digest_hex(b"X"), digest_hex(b"Y"));
}

#[test]
fn path_key_is_digest_of_path_bytes() {
    let key = path_key("/home/u/a.rs");
    assert_eq!(key, blake3::hash(b"/home/u/a.rs").to_hex().to_string());
}

#[test]
fn distinct_paths_distinct_entry_names() {
    let a = entry_file_name("/home/u/a.rs");
    let b = entry_file_name("/home/u/b.rs");
    assert_ne!(a, b);
    assert!(a.ends_with(".json"));
    assert_eq!(a.len(), 64 + 5);
    assert_eq!(a, format!("{}.json", path_key("/home/u/a.rs")));
}
