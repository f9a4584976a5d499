use polled_tls::ChanBuf;

#[test]
fn bytes_come_out_in_order() {
    let mut c = ChanBuf::new();
    c.push(&vec![1, 2, 3]);
    c.push(&vec![4, 5]);
    assert_eq!(c.pending_len(), 5);
    assert_eq!(c.take(2), vec![1, 2]);
    assert_eq!(c.take_all(), vec![3, 4, 5]);
    assert_eq!(c.pending_len(), 0);
}

#[test]
fn peek_does_not_consume() {
    let mut c = ChanBuf::new();
    c.push(&vec![9, 8, 7]);
    assert_eq!(c.peek_to(2), vec![9, 8]);
    assert_eq!(c.peek_to(10), vec![9, 8, 7]);
    assert_eq!(c.pending_len(), 3);
    c.consume(1);
    assert_eq!(c.take_all(), vec![8, 7]);
}

#[test]
fn readiness_signals() {
    let mut c = ChanBuf::new();
    assert!(c.ready());
    assert!(!c.read_ready());
    assert!(c.write_ready());
    c.push(&vec![1]);
    assert!(c.read_ready());
    c.set_ready(false);
    assert!(!c.read_ready());
    assert!(!c.write_ready());
    c.set_ready(true);
    c.close();
    assert!(!c.write_ready());
    assert!(c.read_ready());
    assert_eq!(c.take_all(), vec![1]);
    // Closed and drained: still readable, delivering end-of-stream.
    assert!(c.read_ready());
    assert!(c.closed());
}
