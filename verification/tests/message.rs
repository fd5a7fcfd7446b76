use anng::Message;

fn position(msg: &Message) -> usize {
    msg.len() - msg.remaining()
}

#[test]
fn test_from_slice() {
    let data = b"hello world";
    let msg = Message::from(data.as_slice());
    assert_eq!(msg.as_slice(), data);
    assert_eq!(msg.len(), data.len());
    assert_eq!(position(&msg), 0);
}

#[test]
fn test_deref() {
    let data = b"hello world";
    let msg = Message::from(data.as_slice());
    assert_eq!(msg.as_slice(), data);
}

#[test]
fn test_deref_mut() {
    let mut msg = Message::from(b"hello world".as_slice());
    msg.as_mut_slice()[0] = b'H';
    assert_eq!(msg.as_slice(), b"Hello world");
    let slice: &mut [u8] = msg.as_mut_slice();
    slice[6] = b'W';
    assert_eq!(msg.as_slice(), b"Hello World");
}

#[test]
fn test_clear() {
    let mut msg = Message::from(b"hello world".as_slice());
    msg.write_header(b"header").unwrap();
    msg.advance(5); // Simulate some reading

    assert_eq!(msg.len(), 11);
    assert_eq!(msg.header_len(), 6);
    assert_eq!(position(&msg), 5);

    msg.clear();

    assert_eq!(msg.len(), 0);
    assert_eq!(msg.header_len(), 0);
    assert_eq!(position(&msg), 0);
    assert!(msg.is_empty());
}

#[test]
fn test_as_slice_as_mut_slice() {
    let mut msg = Message::with_capacity(20);
    msg.write(b"hello").unwrap();

    assert_eq!(msg.as_slice(), b"hello");

    let slice = msg.as_mut_slice();
    slice[0] = b'H';
    assert_eq!(msg.as_slice(), b"Hello");
}

#[test]
fn test_unsafe_set_len() {
    let mut msg = Message::with_capacity(20);
    msg.write(b"hello world").unwrap();
    assert_eq!(msg.len(), 11);

    // Truncate using set_len
    msg.set_len(5);
    assert_eq!(msg.len(), 5);
    assert_eq!(msg.as_slice(), b"hello");

    // Extend back using set_len
    msg.set_len(11);
    assert_eq!(msg.len(), 11);
    assert_eq!(msg.as_slice(), b"hello world");

    // Test position adjustment when shrinking below the position
    msg.advance(8);
    msg.set_len(6);
    assert_eq!(msg.len(), 6);
    assert_eq!(position(&msg), 6); // Position should be adjusted
}

#[test]
fn test_buf_trait() {
    let mut msg = Message::from(b"hello world".as_slice());

    // Test initial state
    assert_eq!(msg.remaining(), 11);
    assert_eq!(msg.chunk(), b"hello world");

    // Test advance
    msg.advance(6);
    assert_eq!(msg.remaining(), 5);
    assert_eq!(msg.chunk(), b"world");
    assert_eq!(position(&msg), 6);

    // Test advance to end
    msg.advance(5);
    assert_eq!(msg.remaining(), 0);
    assert_eq!(msg.chunk(), b"");
    assert_eq!(position(&msg), 11);
}

#[test]
fn test_bufmut_put_slice() {
    let mut msg = Message::with_capacity(10);

    // Test remaining_mut
    assert!(msg.remaining_mut() > 0);

    // Test put_slice
    msg.put_slice(b"hello");
    assert_eq!(msg.as_slice(), b"hello");
    assert_eq!(msg.len(), 5);

    msg.put_slice(b" world");
    assert_eq!(msg.as_slice(), b"hello world");
    assert_eq!(msg.len(), 11);
}

#[test]
fn test_bufmut_chunk_mut_advance_mut() {
    let mut msg = Message::with_capacity(20);

    // Get a chunk to write to
    let chunk = msg.chunk_mut();
    assert!(chunk.len() >= 10);

    // Write some data
    chunk[0] = b'h';
    chunk[1] = b'e';
    chunk[2] = b'l';
    chunk[3] = b'l';
    chunk[4] = b'o';

    // Advance to indicate we wrote 5 bytes
    msg.advance_mut(5);

    assert_eq!(msg.len(), 5);
    assert_eq!(msg.as_slice(), b"hello");
}

#[test]
fn test_position_handling_with_truncate() {
    let mut msg = Message::from(b"hello world".as_slice());
    msg.advance(6); // Position at "world"

    // Truncate to remove the end
    msg.truncate(8); // Keep "hello wo"
    assert_eq!(msg.len(), 8);
    assert_eq!(position(&msg), 6);
    assert_eq!(msg.chunk(), b"wo");

    // Truncate beyond position
    msg.truncate(4); // Keep "hell"
    assert_eq!(msg.len(), 4);
    assert_eq!(position(&msg), 4); // Position adjusted
    assert_eq!(msg.remaining(), 0);
}

#[test]
fn test_position_handling_with_truncate_front() {
    let mut msg = Message::from(b"hello world".as_slice());
    msg.advance(6); // Position at "world"

    // Truncate from front, keeping 8 chars: "lo world"
    msg.truncate_front(8);
    assert_eq!(msg.len(), 8);
    assert_eq!(msg.as_slice(), b"lo world");
    assert_eq!(position(&msg), 3); // Position adjusted: 6 - 3 = 3
    assert_eq!(msg.chunk(), b"world");

    // Truncate front more than position
    msg.truncate_front(2); // Keep "ld"
    assert_eq!(msg.len(), 2);
    assert_eq!(msg.as_slice(), b"ld");
    assert_eq!(position(&msg), 0); // Position reset to 0
    assert_eq!(msg.chunk(), b"ld");
}

#[test]
fn test_buf_bufmut_integration() {
    let mut msg = Message::new();

    msg.put_slice(b"hello ");
    msg.put_slice(b"world");
    assert_eq!(msg.as_slice(), b"hello world");

    assert_eq!(msg.remaining(), 11);
    let read_data = msg.chunk()[..5].to_vec();
    msg.advance(5);
    assert_eq!(&read_data, b"hello");
    assert_eq!(msg.remaining(), 6);
    assert_eq!(msg.chunk(), b" world");
}

#[test]
fn test_clone_preserves_position() {
    let mut msg = Message::from(b"hello world".as_slice());
    msg.advance(6);

    let cloned = msg.clone();
    assert_eq!(position(&cloned), 6);
    assert_eq!(cloned.chunk(), b"world");
    assert_eq!(cloned.as_slice(), b"hello world");

    // Test clone_from
    let mut msg2 = Message::new();
    msg2.clone_from(&msg);
    assert_eq!(position(&msg2), 6);
    assert_eq!(msg2.as_slice(), b"hello world");
}

#[test]
fn test_reserve_exponential_growth() {
    // Initial message with "0" capacity
    let mut msg = Message::with_capacity(0);

    // NNG internally adds 32 bytes to the capacity.
    assert_eq!(msg.capacity(), 32);

    // Write exactly the number of bytes available
    msg.write(&[0u8; 32]).unwrap();

    // The capacity is not increased
    assert_eq!(msg.capacity(), 32);

    // Write one more byte to trigger growth
    msg.write(&[1u8]).unwrap();

    // Verify growth occurred - should be at least 33
    let new_capacity = msg.capacity();
    assert!(new_capacity >= 33);

    let mut msg = Message::with_capacity(1024);
    assert_eq!(msg.capacity(), 1024);

    // Fill to capacity
    msg.write(&[0u8; 1024]).unwrap();
    assert_eq!(msg.capacity(), 1024);

    // Write one more byte - required is 1025, next_power_of_two(1024) = 1024
    msg.write(&[1u8]).unwrap();
    assert_eq!(msg.capacity(), 1025);

    // Current capacity is 1025, write to get to 2048
    msg.write(&[2u8; 1023]).unwrap(); // Now at 2048 bytes
    assert_eq!(msg.len(), 2048);
    assert_eq!(msg.capacity(), 2048); // Grew to next power of two

    // Write one more byte to exceed 2048
    msg.write(&[3u8]).unwrap(); // Now at 2049 bytes
    assert_eq!(msg.capacity(), 2049);
}

#[test]
fn test_reserve_exact_amount_for_large_amounts() {
    let mut msg = Message::new();

    msg.reserve(1024);
    assert_eq!(msg.capacity(), 1024); // 1024 > 2 * 32 (initial default capacity)

    msg.reserve(64 * 1024);
    assert_eq!(msg.capacity(), 64 * 1024); // 64 * 1024 > 1024
}

#[test]
fn test_reserve_exact() {
    // Basic reservation on empty message
    let mut msg = Message::new();
    assert_eq!(msg.len(), 0);

    msg.reserve_exact(100);
    assert_eq!(msg.capacity(), 100);
    assert_eq!(msg.len(), 0);

    // No-op when capacity is already sufficient
    let current_capacity = msg.capacity();
    msg.reserve_exact(50);
    assert_eq!(msg.capacity(), current_capacity);

    // Reserve exact with existing data
    let mut msg = Message::new();
    msg.write(b"hello").unwrap();
    assert_eq!(msg.len(), 5);

    // Reserve exact for 50 additional bytes (total: 5 + 50 = 55)
    msg.reserve_exact(50);
    assert_eq!(msg.capacity(), 55);
    assert_eq!(msg.len(), 5);
}

#[test]
fn reserve_doubles_a_small_capacity() {
    let mut msg = Message::new(); // capacity 32
    msg.write(&[7u8; 32]).unwrap();
    msg.reserve(1);
    // The next power of two of 32 is 32 itself, so the required 33 wins.
    assert_eq!(msg.capacity(), 33);
    msg.reserve(20);
    // Required 52; the next power of two of 33 is 64.
    assert_eq!(msg.capacity(), 64);
}

#[test]
fn allocation_adds_headroom_except_for_large_powers_of_two() {
    assert_eq!(Message::with_capacity(100).capacity(), 132);
    assert_eq!(Message::with_capacity(2048).capacity(), 2048);
    assert_eq!(Message::with_capacity(1000).capacity(), 1032);
    assert_eq!(Message::new().capacity(), 32);
    assert_eq!(Message::default().capacity(), 32);
}

#[test]
fn truncate_undoes_write() {
    let mut msg = Message::from(b"abc".as_slice());
    msg.advance(1);
    msg.write(b"defgh").unwrap();
    assert_eq!(msg.as_slice(), b"abcdefgh");
    assert_eq!(position(&msg), 1);
    msg.truncate(3);
    assert_eq!(msg.as_slice(), b"abc");
    assert_eq!(position(&msg), 1);
}

#[test]
fn truncate_front_undoes_prepend() {
    let mut msg = Message::from(b"body".as_slice());
    assert_eq!(msg.prepend(b"head-").unwrap(), 5);
    assert_eq!(msg.as_slice(), b"head-body");
    msg.truncate_front(4);
    assert_eq!(msg.as_slice(), b"body");
}

#[test]
fn header_truncations_undo_header_writes() {
    let mut msg = Message::new();
    msg.write_header(b"mid").unwrap();
    assert_eq!(msg.write_header(b"-end").unwrap(), 4);
    assert_eq!(msg.header(), b"mid-end");
    msg.header_truncate(3);
    assert_eq!(msg.header(), b"mid");
    assert_eq!(msg.prepend_header(b"start-").unwrap(), 6);
    assert_eq!(msg.header(), b"start-mid");
    msg.header_truncate_front(3);
    assert_eq!(msg.header(), b"mid");
    assert_eq!(msg.header_len(), 3);
}

#[test]
fn truncating_past_the_end_changes_nothing() {
    let mut msg = Message::from(b"abc".as_slice());
    msg.truncate(10);
    msg.truncate_front(10);
    msg.header_truncate(10);
    msg.header_truncate_front(10);
    assert_eq!(msg.as_slice(), b"abc");
    assert_eq!(msg.header_len(), 0);
}

#[test]
fn set_len_round_trip_restores_the_body() {
    let mut msg = Message::from(b"0123456789".as_slice());
    msg.set_len(2);
    assert_eq!(msg.as_slice(), b"01");
    msg.set_len(10);
    assert_eq!(msg.as_slice(), b"0123456789");
}

#[test]
fn set_len_past_every_kept_byte_fills_with_zeros() {
    let mut msg = Message::from(b"ab".as_slice());
    msg.set_len(5);
    assert_eq!(msg.as_slice(), b"ab\0\0\0");
}

#[test]
fn write_then_read() {
    let mut msg = Message::from(b"xyz".as_slice());
    msg.advance(2);
    msg.write(b"123").unwrap();
    assert_eq!(msg.chunk(), b"z123");
}

#[test]
fn clearing_twice_is_clearing_once() {
    let mut msg = Message::from(b"hello".as_slice());
    msg.write_header(b"h").unwrap();
    let capacity = msg.capacity();
    msg.clear();
    msg.clear();
    assert!(msg.is_empty());
    assert_eq!(msg.header_len(), 0);
    assert_eq!(msg.remaining(), 0);
    assert_eq!(msg.capacity(), capacity);
}

#[test]
fn remaining_mut_is_what_the_length_leaves() {
    let msg = Message::from(b"four".as_slice());
    assert_eq!(msg.remaining_mut(), usize::MAX - 4);
}

#[test]
fn chunk_mut_grows_a_full_buffer_by_sixty_four() {
    let mut msg = Message::with_capacity(0);
    msg.write(&[1u8; 32]).unwrap();
    assert_eq!(msg.capacity(), 32);
    let chunk = msg.chunk_mut();
    assert_eq!(chunk.len(), 64);
    assert_eq!(msg.capacity(), 96);
}
