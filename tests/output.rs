use webp_converter::output::{files_to_remove, writable_mode};

#[test]
fn only_empty_files_are_removed() {
    assert_eq!(files_to_remove(&vec![0, 5, 0, 7]), vec![0, 2]);
    assert_eq!(files_to_remove(&vec![1, 2, 3]), Vec::<usize>::new());
    assert_eq!(files_to_remove(&vec![0, 0]), vec![0, 1]);
    assert_eq!(files_to_remove(&vec![]), Vec::<usize>::new());
}

#[test]
fn owner_write_bit_is_set() {
    assert_eq!(writable_mode(0o444), 0o644);
    assert_eq!(writable_mode(0o644), 0o644);
    assert_eq!(writable_mode(0o100400), 0o100600);
    assert_eq!(writable_mode(0), 0o200);
}
