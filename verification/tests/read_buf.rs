use a10::io::read_buf::{Bound, ReadBufPool};
use a10::io::traits::{BufGroupId, BufId};

fn pool() -> ReadBufPool {
    ReadBufPool::new(1, 8, 16).unwrap()
}

#[test]
fn pool_size_must_be_a_power_of_two() {
    assert!(matches!(ReadBufPool::new(1, 3, 16), Err(22)));
    assert!(matches!(ReadBufPool::new(1, 0, 16), Err(22)));
    assert!(matches!(ReadBufPool::new(1, 1000, 16), Err(22)));
    assert!(ReadBufPool::new(1, 1, 16).is_ok());
    assert_eq!(ReadBufPool::new(1, 32768, 16).unwrap().pool_size(), 32768);
}

#[test]
fn pool_accessors() {
    let pool = pool();
    assert_eq!(pool.group_id(), BufGroupId(1));
    assert_eq!(pool.pool_size(), 8);
    assert_eq!(pool.buf_size(), 16);
}

#[test]
fn unassigned_buffer() {
    let mut buf = pool().get();
    assert_eq!(buf.capacity(), 16);
    assert_eq!(buf.len(), 0);
    assert!(buf.is_empty());
    assert_eq!(buf.as_slice(), &[] as &[u8]);
    assert_eq!(buf.buffer_group(), Some(BufGroupId(1)));
    assert_eq!(buf.spare_capacity(), 16);
    // Nothing to extend or release without an assigned buffer.
    assert_eq!(buf.extend_from_slice(b"abc"), Err(()));
    assert_eq!(buf.release(), None);
    buf.truncate(0);
    buf.clear();
    assert!(buf.is_empty());
}

#[test]
fn new_buffer_with_nothing_read() {
    // Zero bytes read into buffer 0: the kernel didn't select a buffer.
    let buf = pool().new_buffer(BufId(0), Vec::new());
    assert_eq!(buf.buffer_group(), Some(BufGroupId(1)));
    let buf = pool().new_buffer(BufId(2), Vec::new());
    assert_eq!(buf.buffer_group(), None);
}

#[test]
fn buffer_init_and_release() {
    let mut buf = pool().get();
    buf.buffer_init(BufId(3), b"hello".to_vec());
    assert_eq!(buf.as_slice(), b"hello");
    assert_eq!(buf.buffer_group(), None);
    assert_eq!(buf.spare_capacity(), 11);
    // A second read appends to the assigned buffer.
    buf.buffer_init(BufId(0), b" world".to_vec());
    assert_eq!(buf.as_slice(), b"hello world");
    assert_eq!(buf.release(), Some(BufId(3)));
    assert!(buf.is_empty());
    assert_eq!(buf.buffer_group(), Some(BufGroupId(1)));
    assert_eq!(buf.release(), None);
}

#[test]
fn extend_from_slice_up_to_capacity() {
    let mut buf = pool().new_buffer(BufId(1), b"0123456789".to_vec());
    assert_eq!(buf.extend_from_slice(b"abcdef"), Ok(()));
    assert_eq!(buf.as_slice(), b"0123456789abcdef");
    assert_eq!(buf.len(), 16);
    assert_eq!(buf.spare_capacity(), 0);
    assert_eq!(buf.extend_from_slice(b"x"), Err(()));
    assert_eq!(buf.as_slice(), b"0123456789abcdef");
    assert_eq!(buf.extend_from_slice(b""), Ok(()));
}

#[test]
fn truncate_and_clear() {
    let mut buf = pool().new_buffer(BufId(1), b"0123456789".to_vec());
    buf.truncate(20);
    assert_eq!(buf.as_slice(), b"0123456789");
    buf.truncate(4);
    assert_eq!(buf.as_slice(), b"0123");
    buf.clear();
    assert!(buf.is_empty());
    // Clearing keeps the buffer assigned.
    assert_eq!(buf.buffer_group(), None);
    assert_eq!(buf.release(), Some(BufId(1)));
}

#[test]
fn remove_ranges() {
    let mut buf = pool().new_buffer(BufId(1), b"0123456789".to_vec());
    buf.remove(Bound::Included(2), Bound::Excluded(4));
    assert_eq!(buf.as_slice(), b"01456789");
    buf.remove(Bound::Excluded(0), Bound::Included(1));
    assert_eq!(buf.as_slice(), b"0456789");
    buf.remove(Bound::Unbounded, Bound::Excluded(2));
    assert_eq!(buf.as_slice(), b"56789");
    buf.remove(Bound::Included(3), Bound::Unbounded);
    assert_eq!(buf.as_slice(), b"567");
    buf.remove(Bound::Included(1), Bound::Excluded(1));
    assert_eq!(buf.as_slice(), b"567");
    buf.remove(Bound::Unbounded, Bound::Unbounded);
    assert!(buf.is_empty());

    let mut empty = pool().get();
    empty.remove(Bound::Unbounded, Bound::Unbounded);
    assert!(empty.is_empty());
}

#[test]
fn size_assertion() {
    assert_eq!(std::mem::size_of::<ReadBufPool>(), 8);
    // A `ReadBuf` holds the bytes it was given in a `Vec` of its own and the
    // index of the pool's buffer, not a pointer into the pool, so it is
    // larger than the 24 bytes a pointer, a length and a pool reference take.
}
