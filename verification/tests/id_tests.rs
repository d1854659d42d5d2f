use ui::id::{const_hash, id_with, id_with_pair, FNV_PRIME};

#[test]
fn const_hash_of_empty_name() {
    assert_eq!(const_hash("", 0, 0), 590684067820433389);
}

#[test]
fn const_hash_of_location() {
    assert_eq!(const_hash("src/lib.rs", 10, 5), 11323539210097257007);
    assert_eq!(const_hash("a", 1, 2), 16561524842703742511);
}

#[test]
fn const_hash_reads_utf8_bytes() {
    assert_eq!(const_hash("é", 3, 4), 17837559411283627398);
}

#[test]
fn const_hash_depends_on_line_and_column() {
    assert_ne!(const_hash("src/lib.rs", 10, 5), const_hash("src/lib.rs", 5, 10));
    assert_ne!(const_hash("src/lib.rs", 10, 5), const_hash("src/lib.rs", 10, 6));
}

#[test]
fn id_with_xors() {
    assert_eq!(id_with(0b1100, 0b1010), 0b0110);
}

#[test]
fn id_with_twice_gives_location_back() {
    let loc = const_hash("src/view.rs", 42, 7);
    assert_eq!(id_with(id_with(loc, 99), 99), loc);
    assert_eq!(id_with(loc, 0), loc);
}

#[test]
fn id_with_pair_scrambles_second_id() {
    assert_eq!(id_with_pair(7, 3, 5), 7 ^ 3 ^ 5u64.wrapping_mul(FNV_PRIME));
    assert_eq!(id_with_pair(7, 3, 5), 5497558141051);
    assert_ne!(id_with_pair(7, 3, 5), id_with_pair(7, 5, 3));
}
