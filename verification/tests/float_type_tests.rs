use btfparse::btf::file_header::FileHeader;
use btfparse::btf::float_type::Float;
use btfparse::btf::header::Header;
use btfparse::utils::readable_buffer::ReadableBuffer;
use btfparse::utils::reader::{Reader};

#[test]
fn test_float() {
    let readable_buffer = ReadableBuffer::new(&[
        //
        // BTF header
        //
        0x9F, 0xEB, // magic
        0x01, // version
        0x00, // flags
        0x18, 0x00, 0x00, 0x00, // hdr_len
        0x00, 0x00, 0x00, 0x00, // type_off
        0x0C, 0x00, 0x00, 0x00, // type_len
        0x0C, 0x00, 0x00, 0x00, // str_off
        0x07, 0x00, 0x00, 0x00, // str_len
        //
        // Type section
        //
        0x01, 0x00, 0x00, 0x00, // type header: name_offset
        0x00, 0x00, 0x00, 0x10, // type header: info_flags
        0x03, 0x00, 0x00, 0x00, // type header: size_or_type
        //
        // String section
        //
        0x00, // mandatory null string
        0x66, 0x6C, 0x6F, 0x61, 0x74, 0x00, // "float"
    ]);

    let mut reader = Reader::new(&readable_buffer);
    let file_header = FileHeader::new(&mut reader).unwrap();
    let type_header = Header::new(&mut reader, &file_header).unwrap();
    let float = Float::new(&mut reader, &file_header, type_header).unwrap();
    assert_eq!(float.name().as_deref(), Some("float"));
}
