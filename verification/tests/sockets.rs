use mud_comms::descriptor::IoError;
use mud_comms::socket::ConnQueue;
use mud_comms::socket::{hostname_or_literal, htonl, htons, ntohl, os_io_outcome};

#[test]
fn byte_order_conversions_swap_bytes() {
    assert_eq!(htons(0x1234), 0x3412);
    assert_eq!(htons(4000), 0xA00F);
    assert_eq!(htonl(0x12345678), 0x78563412);
    assert_eq!(ntohl(0x78563412), 0x12345678);
    assert_eq!(htons(0), 0);
    assert_eq!(htonl(0), 0);
    assert_eq!(ntohl(htonl(0xDEADBEEF)), 0xDEADBEEF);
}

#[test]
fn lookup_fallback_absorbs_failure() {
    let resolved = hostname_or_literal(Ok("gateway.example".to_owned()), "10.0.0.7".to_owned());
    assert_eq!(resolved, "gateway.example");
    let fallback = hostname_or_literal(Err(IoError::Other), "127.0.0.1".to_owned());
    assert_eq!(fallback, "127.0.0.1");
}

#[test]
fn not_ready_is_zero_without_an_os_call() {
    assert_eq!(os_io_outcome(false, -1), Ok(0));
    assert_eq!(os_io_outcome(true, -1), Err(IoError::Other));
    assert_eq!(os_io_outcome(true, 0), Ok(0));
    assert_eq!(os_io_outcome(true, 3), Ok(3));
}

#[test]
fn two_queued_connections_come_out_in_arrival_order() {
    // Two connections arrive while the consumer is not yet polling; both are
    // queued; two dequeues return them in arrival order and a third finds
    // none available.
    let mut q = ConnQueue::new(5);
    assert!(q.push(41));
    assert!(q.push(42));
    assert_eq!(q.len(), 2);
    assert_eq!(q.pop(), Some(41));
    assert_eq!(q.pop(), Some(42));
    assert_eq!(q.pop(), None);
}

#[test]
fn queue_is_bounded_and_refuses_overflow() {
    let mut q = ConnQueue::new(5);
    for t in 0..5 {
        assert!(q.push(t));
    }
    assert!(!q.push(99));
    assert_eq!(q.len(), 5);
    assert_eq!(q.pop(), Some(0));
    assert!(q.push(99));
}

#[test]
fn empty_flag_is_recomputed_by_every_operation() {
    let mut q = ConnQueue::new(2);
    assert!(q.flagged_empty());
    assert!(q.push(7));
    assert!(!q.flagged_empty());
    assert_eq!(q.pop(), Some(7));
    assert!(q.flagged_empty());
}
