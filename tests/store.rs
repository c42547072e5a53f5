use scriptr::store::{store_ops, temp_path, StoreOp};

#[test]
fn temp_file_beside_entry() {
    assert_eq!(temp_path("/c/k.json", 42), "/c/k.json.new.42");
    assert_eq!(temp_path("/c/k.json", 0), "/c/k.json.new.0");
    assert_ne!(temp_path("/c/k.json", 1), temp_path("/c/k.json", 11));
}

#[test]
fn protocol_order() {
    let ops = store_ops("/c/k.json", 7, "{}");
    assert_eq!(ops.len(), 4);
    assert!(matches!(&ops[0], StoreOp::CreateLocked(p) if p == "/c/k.json.new.7"));
    assert!(matches!(&ops[1], StoreOp::Write(p, t) if p == "/c/k.json.new.7" && t == "{}"));
    assert!(matches!(&ops[2], StoreOp::Unlock(p) if p == "/c/k.json.new.7"));
    assert!(matches!(&ops[3], StoreOp::Rename(a, b) if a == "/c/k.json.new.7" && b == "/c/k.json"));
}
