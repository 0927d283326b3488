use specter_registry::handle::{Handle, HandleAllocator, ResourceKind, FIRST_HANDLE};

#[test]
fn handle_keeps_its_raw_value() {
    assert_eq!(Handle::from_raw(42).as_raw(), 42);
    assert_eq!(Handle::from_raw(42), Handle { raw: 42 });
    assert_ne!(Handle::from_raw(42), Handle::from_raw(43));
}

#[test]
fn first_handle_is_one() {
    assert_eq!(FIRST_HANDLE, 1);
    let mut allocator = HandleAllocator::new();
    assert_eq!(allocator.peek(), 1);
    assert_eq!(allocator.allocate(), Some(Handle::from_raw(1)));
}

#[test]
fn handles_count_up() {
    let mut allocator = HandleAllocator::new();
    let mut previous = 0;
    for _ in 0..1000 {
        let handle = allocator.allocate().unwrap();
        assert_eq!(handle.as_raw(), previous + 1);
        previous = handle.as_raw();
    }
    assert_eq!(allocator.peek(), 1001);
    assert!(!allocator.is_exhausted());
}

#[test]
fn peek_does_not_issue() {
    let mut allocator = HandleAllocator::new();
    assert_eq!(allocator.peek(), 1);
    assert_eq!(allocator.peek(), 1);
    assert_eq!(allocator.allocate(), Some(Handle::from_raw(1)));
    assert_eq!(allocator.peek(), 2);
}

#[test]
fn starting_below_the_first_handle_starts_at_the_first() {
    let mut allocator = HandleAllocator::starting_at(0);
    assert_eq!(allocator.allocate(), Some(Handle::from_raw(1)));
}

#[test]
fn starting_at_a_value_issues_it_first() {
    let mut allocator = HandleAllocator::starting_at(500);
    assert_eq!(allocator.allocate(), Some(Handle::from_raw(500)));
    assert_eq!(allocator.allocate(), Some(Handle::from_raw(501)));
}

#[test]
fn exhausted_allocator_issues_nothing_and_does_not_wrap() {
    let mut allocator = HandleAllocator::starting_at(u64::MAX - 2);
    assert!(!allocator.is_exhausted());
    assert_eq!(allocator.allocate(), Some(Handle::from_raw(u64::MAX - 2)));
    assert_eq!(allocator.allocate(), Some(Handle::from_raw(u64::MAX - 1)));
    assert!(allocator.is_exhausted());
    assert_eq!(allocator.allocate(), None);
    assert_eq!(allocator.allocate(), None);
    assert_eq!(allocator.peek(), u64::MAX);
}

#[test]
fn kinds_form_a_chain() {
    assert_eq!(ResourceKind::Configuration.dependency(), None);
    assert_eq!(ResourceKind::Registry.dependency(), None);
    assert_eq!(ResourceKind::MediaEngine.dependency(), Some(ResourceKind::Registry));
    assert_eq!(ResourceKind::Api.dependency(), Some(ResourceKind::MediaEngine));
    assert_eq!(ResourceKind::PeerConnection.dependency(), Some(ResourceKind::Api));
}
