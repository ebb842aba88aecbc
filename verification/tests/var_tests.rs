use btfparse::btf::file_header::FileHeader;
use btfparse::btf::header::Header;
use btfparse::btf::var::{LinkageType, Var};
use btfparse::utils::readable_buffer::ReadableBuffer;
use btfparse::utils::reader::{Reader};

#[test]
fn test_var() {
    let readable_buffer = ReadableBuffer::new(&[
        //
        // BTF header
        //
        0x9F, 0xEB, // magic
        0x01, // version
        0x00, // flags
        0x18, 0x00, 0x00, 0x00, // hdr_len
        0x00, 0x00, 0x00, 0x00, // type_off
        0x10, 0x00, 0x00, 0x00, // type_len
        0x10, 0x00, 0x00, 0x00, // str_off
        0x0C, 0x00, 0x00, 0x00, // str_len
        //
        // Type section
        //
        0x01, 0x00, 0x00, 0x00, // type header: name_offset
        0x00, 0x00, 0x00, 0x0E, // type header: info_flags
        0x05, 0x00, 0x00, 0x00, // type header: size_or_type
        // Linkage type
        0x01, 0x00, 0x00, 0x00,
        //
        // String section
        //
        0x00, // mandatory null string
        0x73, 0x74, 0x61, 0x74, 0x69, 0x63, 0x5F, 0x76, 0x61, 0x72, 0x00, // "static_var"
    ]);

    let mut reader = Reader::new(&readable_buffer);
    let file_header = FileHeader::new(&mut reader).unwrap();
    let type_header = Header::new(&mut reader, &file_header).unwrap();
    let var_type = Var::new(&mut reader, &file_header, type_header).unwrap();
    assert_eq!(var_type.name().as_deref(), Some("static_var"));
    assert_eq!(*var_type.type_id(), 5);
    assert_eq!(*var_type.linkage_type(), LinkageType::Global);
    assert_eq!(*var_type.linkage(), 0x01);
}
