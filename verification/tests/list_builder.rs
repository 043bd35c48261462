use pass::list_builder::{list, ListBuilder};

#[test]
fn test_list_builder() {
    let b = list(vec![1, 2])
        .list(vec![1])
        .optional(None, |v| v)
        .optional(Some(10), |v| v);
    assert_eq!(b.to_vec(), vec![1, 2, 1, 10]);
}

#[test]
fn builder_keeps_the_order_of_additions() {
    let mut b: ListBuilder<u32> = ListBuilder::new();
    b.push(3);
    b.push(1);
    let b = b.list(vec![2, 2]).optional(Some(4), |v| v * 2);
    assert_eq!(b.to_vec(), vec![3, 1, 2, 2, 8]);
    let empty: ListBuilder<u32> = ListBuilder::default();
    assert!(empty.to_vec().is_empty());
}
