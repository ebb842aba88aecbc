use btfparse::btf::data_sec::DataSec;
use btfparse::btf::file_header::FileHeader;
use btfparse::btf::header::Header;
use btfparse::utils::readable_buffer::ReadableBuffer;
use btfparse::utils::reader::{Reader};

#[test]
fn data_sec_test_data_sec() {
    let readable_buffer = ReadableBuffer::new(&[
        //
        // BTF header
        //
        0x9F, 0xEB, // magic
        0x01, // version
        0x00, // flags
        0x18, 0x00, 0x00, 0x00, // hdr_len
        0x00, 0x00, 0x00, 0x00, // type_off
        0x24, 0x00, 0x00, 0x00, // type_len
        0x24, 0x00, 0x00, 0x00, // str_off
        0x0A, 0x00, 0x00, 0x00, // str_len
        //
        // Type section
        //
        0x01, 0x00, 0x00, 0x00, // type header: name_offset
        0x02, 0x00, 0x00, 0x0F, // type header: info_flags
        0x04, 0x00, 0x00, 0x00, // type header: size_or_type
        // Extra info
        0x05, 0x00, 0x00, 0x00, // datasec info 1: var decl id
        0x04, 0x00, 0x00, 0x00, // datasec info 1: var decl offset
        0x08, 0x00, 0x00, 0x00, // datasec info 1: var decl size
        0x05, 0x00, 0x00, 0x00, // datasec info 2: var decl id
        0x08, 0x00, 0x00, 0x00, // datasec info 2: var decl offset
        0x08, 0x00, 0x00, 0x00, // datasec info 2: var decl size
        //
        // String section
        //
        0x00, // mandatory null string
        0x76, 0x61, 0x72, 0x5F, 0x6E, 0x61, 0x6D, 0x65, 0x00, // "var_name"
    ]);

    let mut reader = Reader::new(&readable_buffer);
    let file_header = FileHeader::new(&mut reader).unwrap();
    let type_header = Header::new(&mut reader, &file_header).unwrap();
    let data_sec = DataSec::new(&mut reader, &file_header, type_header).unwrap();
    assert_eq!(data_sec.name().as_deref(), Some("var_name"));
    assert_eq!(*data_sec.size(), 4);

    assert_eq!(data_sec.variable_list().len(), 2);
    assert_eq!(data_sec.variable_list()[0].var_decl_id, 5);
    assert_eq!(data_sec.variable_list()[0].offset, 4);
    assert_eq!(data_sec.variable_list()[0].var_size, 8);

    assert_eq!(data_sec.variable_list()[1].var_decl_id, 5);
    assert_eq!(data_sec.variable_list()[1].offset, 8);
    assert_eq!(data_sec.variable_list()[1].var_size, 8);
}
