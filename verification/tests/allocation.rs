use datavir::allocator::{is_reserved_inode, InodeAllocator, INODE_MIN};

#[test]
fn allocation_is_strictly_increasing() {
    let mut alloc = InodeAllocator::new();
    let mut last = alloc.next().unwrap();
    assert_eq!(last, INODE_MIN);
    for _ in 0..1000 {
        let next = alloc.next().unwrap();
        assert_eq!(next, last + 1);
        assert!(next > last);
        last = next;
    }
}

#[test]
fn recovery_goes_on_above_the_highest_inode() {
    let mut alloc = InodeAllocator::recover(Some(500));
    assert_eq!(alloc.peek(), Some(501));
    assert_eq!(alloc.next(), Some(501));
    assert_eq!(alloc.next(), Some(502));
    let mut high = InodeAllocator::recover(Some(1u64 << 63));
    assert_eq!(high.next(), Some((1u64 << 63) + 1));
}

#[test]
fn recovery_never_enters_the_reserved_range() {
    assert_eq!(InodeAllocator::recover(None).peek(), Some(64));
    assert_eq!(InodeAllocator::recover(Some(0)).peek(), Some(64));
    assert_eq!(InodeAllocator::recover(Some(8)).peek(), Some(64));
    assert_eq!(InodeAllocator::recover(Some(63)).peek(), Some(64));
    assert_eq!(InodeAllocator::recover(Some(64)).peek(), Some(65));
}

#[test]
fn allocation_ends_without_wrapping() {
    let mut alloc = InodeAllocator::recover(Some(u64::MAX - 2));
    assert_eq!(alloc.next(), Some(u64::MAX - 1));
    assert_eq!(alloc.next(), Some(u64::MAX));
    assert_eq!(alloc.next(), None);
    assert_eq!(alloc.next(), None);
    assert_eq!(alloc.peek(), None);
    let mut spent = InodeAllocator::recover(Some(u64::MAX));
    assert_eq!(spent.next(), None);
}

#[test]
fn reserved_range_ends_before_the_first_dynamic_inode() {
    assert!(is_reserved_inode(0));
    assert!(is_reserved_inode(63));
    assert!(!is_reserved_inode(64));
    assert!(!is_reserved_inode(u64::MAX));
}
