use scriptr::digest::digest_hex;
use scriptr::entry::CacheEntry;
use scriptr::launch::{after_hash, after_lookup, after_mtime, clean_plan, find_script_index, split_args, Next, Options};

fn words(v: &[&str]) -> Vec<String> {
    v.iter().map(|s| s.to_string()).collect()
}

fn opts() -> Options {
    Options { release: true, verbose: false, force: false, clean: false, clean_only: false, hash_only: false }
}

#[test]
fn split_at_first_non_option() {
    let (own, rest) = split_args(&words(&["scriptr", "-v", "a.rs", "-x", "y"]));
    assert_eq!(own, words(&["scriptr", "-v", "a.rs"]));
    assert_eq!(rest, words(&["-x", "y"]));
}

#[test]
fn split_after_double_dash() {
    let (own, rest) = split_args(&words(&["scriptr", "-f", "--", "-weird.rs", "--", "z"]));
    assert_eq!(own, words(&["scriptr", "-f", "--", "-weird.rs"]));
    assert_eq!(rest, words(&["--", "z"]));
}

#[test]
fn split_without_script() {
    assert_eq!(find_script_index(&words(&["scriptr", "--help"])), None);
    assert_eq!(find_script_index(&words(&["scriptr", "-v", "--"])), None);
    let (own, rest) = split_args(&words(&["scriptr", "--help"]));
    assert_eq!(own, words(&["scriptr", "--help"]));
    assert!(rest.is_empty());
    let (own, rest) = split_args(&words(&["scriptr"]));
    assert_eq!(own, words(&["scriptr"]));
    assert!(rest.is_empty());
}

#[test]
fn empty_word_is_script() {
    assert_eq!(find_script_index(&words(&["scriptr", "-d", ""])), Some(2));
}

#[test]
fn clean_only_finishes_without_entry() {
    let mut o = opts();
    o.clean_only = true;
    let plan = clean_plan(&o);
    assert!(plan.remove_entry);
    assert!(plan.finish);
    let mut o = opts();
    o.clean = true;
    let plan = clean_plan(&o);
    assert!(plan.remove_entry);
    assert!(!plan.finish);
    let plan = clean_plan(&opts());
    assert!(!plan.remove_entry && !plan.finish);
}

#[test]
fn force_rebuilds_even_on_hit() {
    let mut o = opts();
    o.force = true;
    let e = Some(CacheEntry::new(1, "h".to_string(), "/b".to_string()));
    assert!(matches!(after_lookup(&o, &e), Next::Rebuild));
}

#[test]
fn missing_artifact_rebuilds() {
    let e = CacheEntry::new(1, "h".to_string(), "/b".to_string());
    assert!(matches!(after_mtime(&e, 1, false), Next::CheckHash));
    assert!(matches!(after_hash(&e, &"h".to_string(), false), Next::Rebuild));
}

#[test]
fn changed_mtime_same_hash_hits() {
    let e = CacheEntry::new(1, "h".to_string(), "/b".to_string());
    assert!(matches!(after_mtime(&e, 2, true), Next::CheckHash));
    assert!(matches!(after_hash(&e, &"h".to_string(), true), Next::Launch(p) if p == "/b"));
}

#[test]
fn changed_content_same_mtime_missed_without_hash_only() {
    let e = CacheEntry::new(9, digest_hex(b"X"), "/b".to_string());
    assert!(matches!(after_lookup(&opts(), &Some(CacheEntry::new(9, digest_hex(b"X"), "/b".to_string()))), Next::CheckMtime));
    assert!(matches!(after_mtime(&e, 9, true), Next::Launch(_)));
}

#[test]
fn scenario_build_hit_then_hash_only_rebuild() {
    let mtime = 1_700_000_000u64;
    // First run, no cache: exactly one build.
    let stored: Option<CacheEntry> = None;
    assert!(matches!(after_lookup(&opts(), &stored), Next::Rebuild));
    let entry = CacheEntry::new(mtime, digest_hex(b"X"), "/t/release/a".to_string());
    let text = entry.encode();
    assert!(text.contains(&digest_hex(b"X")));

    // Second run, unchanged: no build, same artifact.
    let stored = CacheEntry::decode(&text);
    assert!(matches!(after_lookup(&opts(), &stored), Next::CheckMtime));
    let e = stored.unwrap();
    assert!(matches!(after_mtime(&e, mtime, true), Next::Launch(p) if p == "/t/release/a"));

    // Content Y with the old mtime, hash-only: one build, refreshed entry.
    let mut o = opts();
    o.hash_only = true;
    let stored = CacheEntry::decode(&text);
    assert!(matches!(after_lookup(&o, &stored), Next::CheckHash));
    let e = stored.unwrap();
    assert!(matches!(after_hash(&e, &digest_hex(b"Y"), true), Next::Rebuild));
    let refreshed = CacheEntry::new(mtime, digest_hex(b"Y"), "/t/release/a".to_string());
    let again = CacheEntry::decode(&refreshed.encode()).unwrap();
    assert_eq!(again.fingerprint.hash, digest_hex(b"Y"));
    assert!(matches!(after_hash(&again, &digest_hex(b"Y"), true), Next::Launch(_)));
}
