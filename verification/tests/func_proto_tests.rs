use btfparse::btf::file_header::FileHeader;
use btfparse::btf::func_proto::FuncProto;
use btfparse::btf::header::Header;
use btfparse::utils::readable_buffer::ReadableBuffer;
use btfparse::utils::reader::{Reader};

#[test]
fn test_func_proto() {
    let readable_buffer = ReadableBuffer::new(&[
        //
        // BTF header
        //
        0x9F, 0xEB, // magic
        0x01, // version
        0x00, // flags
        0x18, 0x00, 0x00, 0x00, // hdr_len
        0x00, 0x00, 0x00, 0x00, // type_off
        0x1C, 0x00, 0x00, 0x00, // type_len
        0x1C, 0x00, 0x00, 0x00, // str_off
        0x0F, 0x00, 0x00, 0x00, // str_len
        //
        // Type section
        //
        0x00, 0x00, 0x00, 0x00, // type header: name_offset
        0x02, 0x00, 0x00, 0x0D, // type header: info_flags
        0x05, 0x00, 0x00, 0x00, // type header: size_or_type
        //
        // Extra data
        //
        0x01, 0x00, 0x00, 0x00, // param 1: name offset
        0x02, 0x00, 0x00, 0x00, // param 1: type id
        0x08, 0x00, 0x00, 0x00, // param 2: name offset
        0x03, 0x00, 0x00, 0x00, // param 2: type id
        //
        // String section
        //
        0x00, // mandatory null string
        0x70, 0x61, 0x72, 0x61, 0x6D, 0x31, 0x00, // "param1"
        0x70, 0x61, 0x72, 0x61, 0x6D, 0x32, 0x00, // "param2"
    ]);

    let mut reader = Reader::new(&readable_buffer);
    let file_header = FileHeader::new(&mut reader).unwrap();
    let type_header = Header::new(&mut reader, &file_header).unwrap();
    let func_proto_type = FuncProto::new(&mut reader, &file_header, type_header).unwrap();

    assert_eq!(*func_proto_type.return_tid(), 5);
    assert_eq!(func_proto_type.parameter_list().len(), 2);

    assert_eq!(func_proto_type.parameter_list()[0].tid(), 2);
    assert_eq!(
        func_proto_type.parameter_list()[0].name().as_deref(),
        Some("param1")
    );

    assert_eq!(func_proto_type.parameter_list()[1].tid(), 3);
    assert_eq!(
        func_proto_type.parameter_list()[1].name().as_deref(),
        Some("param2")
    );
}
