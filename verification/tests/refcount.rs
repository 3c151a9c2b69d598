use virt::refcount::RefCount;

#[test]
fn clone_close_refcount_balance() {
    // One successful open, then five clones: six owners in all.
    let mut rc = RefCount::new();
    assert_eq!(rc.count(), 1);
    for _ in 0..5 {
        rc.retain();
    }
    assert_eq!(rc.count(), 6);
    // Closing the first five owners leaves the resource live every time.
    for _ in 0..5 {
        let last = rc.release();
        assert!(!last);
        assert!(rc.count() > 0);
    }
    // Only the close of the last owner releases the underlying object.
    let last = rc.release();
    assert!(last);
    assert_eq!(rc.count(), 0);
}

#[test]
fn sole_owner_release_frees_at_once() {
    let mut rc = RefCount::new();
    let last = rc.release();
    assert!(last);
    assert_eq!(rc.count(), 0);
}
