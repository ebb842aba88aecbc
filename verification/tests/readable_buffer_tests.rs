use btfparse::utils::readable_buffer::ReadableBuffer;
use btfparse::{ErrorKind, Readable};

#[test]
fn test_buffer_offset_overflow() {
    // Test overflow when calculating source_end_offset (source_start_offset + buffer.len())
    let data = vec![0u8; 100];
    let readable_buffer = ReadableBuffer::new(&data);

    let mut buffer = vec![0u8; 100];
    let result = readable_buffer.read(usize::MAX as u64 - 50, &mut buffer);
    assert!(result.is_err());
    assert_eq!(result.unwrap_err().kind(), ErrorKind::InvalidOffset);
}

#[test]
fn test_valid_read_at_boundary() {
    let data = vec![0x41, 0x42, 0x43, 0x44];
    let readable_buffer = ReadableBuffer::new(&data);

    let mut buffer = vec![0u8; 4];
    let result = readable_buffer.read(0, &mut buffer);
    assert!(result.is_ok());
    assert_eq!(buffer, vec![0x41, 0x42, 0x43, 0x44]);

    let mut buffer = vec![0u8; 1];
    let result = readable_buffer.read(3, &mut buffer);
    assert!(result.is_ok());
    assert_eq!(buffer, vec![0x44]);
}

#[test]
fn test_eof_error() {
    let data = vec![0x41, 0x42, 0x43, 0x44];
    let readable_buffer = ReadableBuffer::new(&data);

    let mut buffer = vec![0u8; 1];
    let result = readable_buffer.read(4, &mut buffer);
    assert!(result.is_err());
    assert_eq!(result.unwrap_err().kind(), ErrorKind::EOF);
}

#[test]
fn test_invalid_offset_beyond_buffer() {
    let data = vec![0x41, 0x42, 0x43, 0x44];
    let readable_buffer = ReadableBuffer::new(&data);

    let mut buffer = vec![0u8; 2];
    let result = readable_buffer.read(3, &mut buffer);
    assert!(result.is_err());
    assert_eq!(result.unwrap_err().kind(), ErrorKind::InvalidOffset);
}
