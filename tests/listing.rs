use nomad_rs_api::listing::newest_first;

#[test]
fn highest_index_comes_first() {
    assert_eq!(newest_first(&vec![5, 9, 1, 7]), vec![1, 3, 0, 2]);
}

#[test]
fn equal_indexes_keep_their_order() {
    assert_eq!(newest_first(&vec![3, 8, 3, 8, 3]), vec![1, 3, 0, 2, 4]);
}

#[test]
fn empty_and_single_listings() {
    assert_eq!(newest_first(&vec![]), Vec::<usize>::new());
    assert_eq!(newest_first(&vec![u64::MAX]), vec![0]);
}

#[test]
fn already_sorted_and_reversed() {
    assert_eq!(newest_first(&vec![4, 3, 2, 1]), vec![0, 1, 2, 3]);
    assert_eq!(newest_first(&vec![1, 2, 3, 4]), vec![3, 2, 1, 0]);
}
