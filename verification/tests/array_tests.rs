use btfparse::btf::array::Array;
use btfparse::btf::file_header::FileHeader;
use btfparse::btf::header::Header;
use btfparse::utils::readable_buffer::ReadableBuffer;
use btfparse::utils::reader::{Reader};

#[test]
fn array_test_array() {
    let readable_buffer = ReadableBuffer::new(&[
        //
        // BTF header
        //
        0x9F, 0xEB, // magic
        0x01, // version
        0x00, // flags
        0x18, 0x00, 0x00, 0x00, // hdr_len
        0x00, 0x00, 0x00, 0x00, // type_off
        0x18, 0x00, 0x00, 0x00, // type_len
        0x18, 0x00, 0x00, 0x00, // str_off
        0x01, 0x00, 0x00, 0x00, // str_len
        //
        // Type section
        //
        0x00, 0x00, 0x00, 0x00, // type header: name_offset
        0x00, 0x00, 0x00, 0x03, // type header: info_flags
        0x00, 0x00, 0x00, 0x00, // type header: size_or_type
        // Extra info
        0x05, 0x00, 0x00, 0x00, // array header: element type id
        0x06, 0x00, 0x00, 0x00, // array header: index type id
        0x07, 0x00, 0x00, 0x00, // array header: element count
        //
        // String section
        //
        0x00, // mandatory null string
    ]);

    let mut reader = Reader::new(&readable_buffer);
    let file_header = FileHeader::new(&mut reader).unwrap();
    let type_header = Header::new(&mut reader, &file_header).unwrap();
    let array = Array::new(&mut reader, &file_header, type_header).unwrap();
    assert_eq!(*array.element_type_id(), 5);
    assert_eq!(*array.index_type_id(), 6);
    assert_eq!(*array.element_count(), 7);
}
