//! The ring buffer as a queue with overwrite-on-full semantics.

use onmi::RingBuffer;

#[test]
fn fresh_buffer_is_empty() {
    let rb: RingBuffer<i32> = RingBuffer::new(3);
    assert_eq!(rb.capacity(), 3);
    assert_eq!(rb.len(), 0);
    assert!(rb.is_empty());
    assert!(!rb.is_full());
}

#[test]
fn push_and_pop_keep_order() {
    let mut rb: RingBuffer<i32> = RingBuffer::new(3);
    rb.push(1);
    rb.push(2);
    assert_eq!(rb.len(), 2);
    assert_eq!(rb.pop(), Some(1));
    assert_eq!(rb.pop(), Some(2));
    assert_eq!(rb.pop(), None);
}

#[test]
fn push_into_full_overwrites_oldest() {
    let mut rb: RingBuffer<i32> = RingBuffer::new(3);
    rb.push(1);
    rb.push(2);
    rb.push(3);
    assert!(rb.is_full());
    rb.push(4);
    assert_eq!(rb.len(), 3);
    assert_eq!(rb.pop(), Some(2));
    assert_eq!(rb.pop(), Some(3));
    assert_eq!(rb.pop(), Some(4));
    assert_eq!(rb.pop(), None);
}

#[test]
fn wrap_around_keeps_order() {
    let mut rb: RingBuffer<i32> = RingBuffer::new(3);
    rb.push(1);
    rb.push(2);
    assert_eq!(rb.pop(), Some(1));
    rb.push(3);
    rb.push(4);
    assert!(rb.is_full());
    assert_eq!(rb.pop(), Some(2));
    assert_eq!(rb.pop(), Some(3));
    assert_eq!(rb.pop(), Some(4));
    assert!(rb.is_empty());
}

#[test]
fn try_push_refuses_when_full() {
    let mut rb: RingBuffer<i32> = RingBuffer::new(2);
    rb.try_push(1);
    rb.try_push(2);
    rb.try_push(3);
    assert_eq!(rb.len(), 2);
    assert_eq!(rb.pop(), Some(1));
    assert_eq!(rb.pop(), Some(2));
}

#[test]
fn peek_reads_without_removing() {
    let mut rb: RingBuffer<i32> = RingBuffer::new(2);
    assert_eq!(rb.peek(), None);
    rb.push(9);
    assert_eq!(rb.peek(), Some(&9));
    assert_eq!(rb.len(), 1);
    assert_eq!(rb.pop(), Some(9));
}

#[test]
fn peek_mut_edits_the_oldest_in_place() {
    let mut rb: RingBuffer<i32> = RingBuffer::new(2);
    assert!(rb.peek_mut().is_none());
    rb.push(5);
    rb.push(6);
    if let Some(p) = rb.peek_mut() {
        *p = 50;
    }
    assert_eq!(rb.pop(), Some(50));
    assert_eq!(rb.pop(), Some(6));
}

#[test]
fn clear_empties_the_buffer() {
    let mut rb: RingBuffer<i32> = RingBuffer::new(3);
    rb.push(1);
    rb.push(2);
    rb.clear();
    assert!(rb.is_empty());
    assert_eq!(rb.pop(), None);
    rb.push(7);
    assert_eq!(rb.pop(), Some(7));
}
