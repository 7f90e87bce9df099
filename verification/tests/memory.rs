use printers::windows::utils::memory::{alloc_s, dealloc_s, RawBuffer};
use printers::windows::winspool::info::free;

#[test]
fn allocated_buffer_has_the_exact_size_and_is_zeroed() {
    let buffer = alloc_s(200, 8).expect("200 bytes can be allocated");
    assert_eq!(buffer.bytes.len(), 200);
    assert_eq!(buffer.len(), 200);
    assert!(buffer.bytes.iter().all(|byte| *byte == 0));
    assert_eq!(buffer.stride, 8);
    assert_eq!(buffer.count, 0);
}

#[test]
fn buffer_of_no_bytes_is_always_provided() {
    let buffer = alloc_s(0, 136).expect("no bytes need no memory");
    assert_eq!(buffer.len(), 0);
    assert_eq!(buffer.stride, 136);
    let empty = RawBuffer::empty(2);
    assert_eq!(empty.len(), 0);
    assert_eq!(empty.stride, 2);
    assert_eq!(empty.count, 0);
}

#[test]
fn records_are_consecutive_windows_of_the_stride() {
    let buffer = RawBuffer { bytes: vec![1, 2, 3, 4, 5, 6, 7], stride: 3, count: 2 };
    assert_eq!(buffer.record(0), &[1u8, 2, 3][..]);
    assert_eq!(buffer.record(1), &[4u8, 5, 6][..]);
}

#[test]
fn buffers_are_released_by_value() {
    let buffer = alloc_s(16, 4).expect("16 bytes can be allocated");
    free(buffer);
    free(RawBuffer::empty(4));
    dealloc_s(alloc_s(8, 1).expect("8 bytes can be allocated"));
}

#[test]
fn more_bytes_than_can_be_addressed_are_not_provided() {
    assert!(alloc_s(usize::MAX, 1).is_none());
}
