use petals_core::logbuf::LogBuffer;

#[test]
fn push_keeps_order_below_capacity() {
    let mut buf = LogBuffer::with_capacity(3);
    buf.push("a".to_string());
    buf.push("b".to_string());
    assert_eq!(buf.snapshot(), vec!["a".to_string(), "b".to_string()]);
    assert_eq!(buf.len(), 2);
}

#[test]
fn overflow_evicts_the_oldest_entry() {
    let mut buf = LogBuffer::with_capacity(3);
    for s in ["a", "b", "c", "d"] {
        buf.push(s.to_string());
        assert!(buf.len() <= 3);
    }
    assert_eq!(
        buf.snapshot(),
        vec!["b".to_string(), "c".to_string(), "d".to_string()]
    );
}

#[test]
fn eviction_is_strict_fifo_over_many_appends() {
    let mut buf = LogBuffer::with_capacity(2);
    for i in 0..10 {
        buf.push(format!("line{}", i));
        assert!(buf.len() <= 2);
    }
    assert_eq!(buf.snapshot(), vec!["line8".to_string(), "line9".to_string()]);
}

#[test]
fn clear_empties_the_buffer() {
    let mut buf = LogBuffer::with_capacity(2);
    buf.push("a".to_string());
    buf.clear();
    assert_eq!(buf.len(), 0);
    assert!(buf.snapshot().is_empty());
}
