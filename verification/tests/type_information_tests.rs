use btfparse::btf::array::Array;
use btfparse::btf::const_type::Const;
use btfparse::btf::data_sec::{DataSec, Variable};
use btfparse::btf::decl_tag::DeclTag;
use btfparse::btf::enum32::{Enum, IntegerValue as Integer32Value, NamedValue as NamedValue32};
use btfparse::btf::enum64::{Enum64, IntegerValue as Integer64Value, NamedValue as NamedValue64};
use btfparse::btf::float_type::Float;
use btfparse::btf::func::Func;
use btfparse::btf::func_proto::FuncProto;
use btfparse::btf::fwd::Fwd;
use btfparse::btf::header::Header;
use btfparse::btf::int_type::Int;
use btfparse::btf::kind::Kind;
use btfparse::btf::offset::Offset;
use btfparse::btf::ptr::Ptr;
use btfparse::btf::restrict::Restrict;
use btfparse::btf::struct_union::{Member, Struct, Union};
use btfparse::btf::type_information::TypeInformation;
use btfparse::btf::type_path::TypePathComponent;
use btfparse::btf::type_tag::TypeTag;
use btfparse::btf::type_variant::TypeVariant;
use btfparse::btf::typedef::Typedef;
use btfparse::btf::var::{LinkageType, Var};
use btfparse::btf::volatile::Volatile;
use btfparse::utils::readable_buffer::ReadableBuffer;
use btfparse::ErrorKind;
use std::collections::BTreeMap;

#[test]
fn test_path_component_iter() {
    let type_path = TypeInformation::split_path_components("").unwrap();
    assert!(type_path.is_empty());

    let type_path = TypeInformation::split_path_components("[1]").unwrap();
    assert_eq!(type_path.len(), 1);
    assert_eq!(type_path[0], TypePathComponent::Index(1));

    let type_path = TypeInformation::split_path_components("[1][2]").unwrap();
    assert_eq!(type_path.len(), 2);
    assert_eq!(type_path[0], TypePathComponent::Index(1));
    assert_eq!(type_path[1], TypePathComponent::Index(2));

    let type_path = TypeInformation::split_path_components("test").unwrap();
    assert_eq!(type_path.len(), 1);
    assert_eq!(type_path[0], TypePathComponent::Name("test"));

    let type_path = TypeInformation::split_path_components("array[10]").unwrap();
    assert_eq!(type_path.len(), 2);
    assert_eq!(type_path[0], TypePathComponent::Name("array"));
    assert_eq!(type_path[1], TypePathComponent::Index(10));

    let type_path = TypeInformation::split_path_components("array[10].array2[11]").unwrap();
    assert_eq!(type_path.len(), 4);
    assert_eq!(type_path[0], TypePathComponent::Name("array"));
    assert_eq!(type_path[1], TypePathComponent::Index(10));
    assert_eq!(type_path[2], TypePathComponent::Name("array2"));
    assert_eq!(type_path[3], TypePathComponent::Index(11));

    // Test underscore in names
    let type_path = TypeInformation::split_path_components("_test").unwrap();
    assert_eq!(type_path.len(), 1);
    assert_eq!(type_path[0], TypePathComponent::Name("_test"));

    let type_path = TypeInformation::split_path_components("test_field").unwrap();
    assert_eq!(type_path.len(), 1);
    assert_eq!(type_path[0], TypePathComponent::Name("test_field"));

    assert!(TypeInformation::split_path_components(".value").is_err());
    assert!(TypeInformation::split_path_components(".[10]").is_err());
    assert!(TypeInformation::split_path_components("[value").is_err());
    assert!(TypeInformation::split_path_components("]value").is_err());
    assert!(TypeInformation::split_path_components("1").is_err());
    assert!(TypeInformation::split_path_components("array[10]value").is_err());
    assert!(TypeInformation::split_path_components("array[]").is_err());
    assert!(TypeInformation::split_path_components("[]").is_err());
}

fn get_test_types() -> (BTreeMap<u32, TypeVariant>, Vec<(String, u32)>) {
    let mut id_to_type_map = BTreeMap::<u32, TypeVariant>::new();
    let mut names: Vec<(String, u32)> = Vec::new();

    // tid:1 BTF_KIND_INT
    id_to_type_map.insert(
        1,
        TypeVariant::Int(Int::create(
            Header::create(Kind::Int, 1, 0, false, 4),
            Some(String::from("unsigned int")),
            4,
            false,
            false,
            false,
            0,
            32,
        )),
    );

    names.push((String::from("unsigned int"), 1));

    // tid:2 BTF_KIND_PTR. Make this reference the named struct type we define
    // later on
    id_to_type_map.insert(
        2,
        TypeVariant::Ptr(Ptr::create(Header::create(Kind::Ptr, 0, 0, false, 6), 6)),
    );

    // tid:3 BTF_KIND_ARRAY
    id_to_type_map.insert(
        3,
        TypeVariant::Array(Array::create(
            Header::create(Kind::Array, 0, 0, false, 0),
            1,
            1,
            10,
        )),
    );

    //
    // BTF_KIND_STRUCT
    //

    // tid:4 Anonymous struct type
    id_to_type_map.insert(
        4,
        TypeVariant::Struct(Struct::create(
            Header::create(Kind::Struct, 0, 2, false, 8),
            None,
            8,
            vec![
                Member::create(
                    1,
                    Some(String::from("anon_struct_value1")),
                    1,
                    Offset::ByteOffset(0),
                ),
                Member::create(
                    1,
                    Some(String::from("anon_struct_value2")),
                    1,
                    Offset::ByteOffset(32),
                ),
            ],
        )),
    );

    // tid:5 Anonymous union type
    id_to_type_map.insert(
        5,
        TypeVariant::Union(Union::create(
            Header::create(Kind::Union, 0, 2, true, 8),
            None,
            8,
            vec![
                Member::create(
                    1,
                    Some(String::from("anon_union_value1")),
                    1,
                    Offset::ByteOffset(0),
                ),
                Member::create(
                    1,
                    Some(String::from("anon_union_value2")),
                    2,
                    Offset::ByteOffset(0),
                ),
            ],
        )),
    );

    // tid:6 Named struct type
    id_to_type_map.insert(
        6,
        TypeVariant::Struct(Struct::create(
            Header::create(Kind::Struct, 1, 4, false, 28),
            Some(String::from("Struct")),
            28,
            vec![
                Member::create(0, None, 4, Offset::ByteOffset(0)),
                Member::create(0, None, 5, Offset::ByteOffset(64)),
                Member::create(
                    1,
                    Some(String::from("int_value")),
                    1,
                    Offset::ByteOffset(128),
                ),
                Member::create(
                    1,
                    Some(String::from("ptr_value")),
                    2,
                    Offset::ByteOffset(160),
                ),
            ],
        )),
    );

    names.push((String::from("Struct"), 6));

    // tid:7 list_head struct, used internally to determine the size of a pointer
    id_to_type_map.insert(
        7,
        TypeVariant::Struct(Struct::create(
            Header::create(Kind::Struct, 1, 2, false, 16),
            Some(String::from("list_head")),
            16,
            vec![
                Member::create(1, Some(String::from("next")), 2, Offset::ByteOffset(0)),
                Member::create(1, Some(String::from("prev")), 2, Offset::ByteOffset(64)),
            ],
        )),
    );

    names.push((String::from("list_head"), 7));

    // tid:8 BTF_KIND_ENUM
    id_to_type_map.insert(
        8,
        TypeVariant::Enum(Enum::create(
            Header::create(Kind::Enum, 1, 2, false, 4),
            Some(String::from("Enum32")),
            4,
            vec![NamedValue32 {
                name: String::from("Enum32Value1"),
                value: Integer32Value::Unsigned(0),
            }],
            false,
        )),
    );

    names.push((String::from("Enum32"), 8));

    // tid:9 BTF_KIND_ENUM64
    id_to_type_map.insert(
        9,
        TypeVariant::Enum64(Enum64::create(
            Header::create(Kind::Enum64, 1, 2, false, 8),
            Some(String::from("Enum64")),
            8,
            vec![NamedValue64 {
                name: String::from("Enum64Value1"),
                value: Integer64Value::Unsigned(0),
            }],
            false,
        )),
    );

    names.push((String::from("Enum64"), 9));

    // tid:10 BTF_KIND_FWD
    id_to_type_map.insert(
        10,
        TypeVariant::Fwd(Fwd::create(
            Header::create(Kind::Fwd, 1, 0, false, 6),
            Some(String::from("Fwd")),
            6,
        )),
    );

    names.push((String::from("StructForwardDecl"), 10));

    // tid:11 BTF_KIND_TYPEDEF
    id_to_type_map.insert(
        11,
        TypeVariant::Typedef(Typedef::create(
            Header::create(Kind::Typedef, 1, 2, false, 6),
            6,
            Some(String::from("StructAlias")),
        )),
    );

    names.push((String::from("StructAlias"), 11));

    // tid:12 BTF_KIND_VOLATILE
    id_to_type_map.insert(
        12,
        TypeVariant::Volatile(Volatile::create(
            Header::create(Kind::Volatile, 0, 0, false, 6),
            6,
        )),
    );

    // tid:13 BTF_KIND_CONST
    id_to_type_map.insert(
        13,
        TypeVariant::Const(Const::create(
            Header::create(Kind::Const, 0, 0, false, 6),
            6,
        )),
    );

    // tid:14 BTF_KIND_RESTRICT
    id_to_type_map.insert(
        14,
        TypeVariant::Restrict(Restrict::create(
            Header::create(Kind::Restrict, 0, 0, false, 6),
            6,
        )),
    );

    // tid:15 BTF_KIND_FUNC
    id_to_type_map.insert(
        15,
        TypeVariant::Func(Func::create(
            Header::create(Kind::Func, 1, 0, false, 16),
            Some(String::from("func")),
            16,
        )),
    );

    names.push((String::from("func"), 15));

    // tid:16 BTF_KIND_FUNC_PROTO
    id_to_type_map.insert(
        16,
        TypeVariant::FuncProto(FuncProto::create(
            Header::create(Kind::FuncProto, 0, 0, false, 1),
            1,
            vec![],
        )),
    );

    // tid:17 BTF_KIND_VAR
    id_to_type_map.insert(
        17,
        TypeVariant::Var(Var::create(
            Header::create(Kind::Var, 1, 0, false, 1),
            Some(String::from("var")),
            1,
            0,
            LinkageType::Global,
        )),
    );

    names.push((String::from("var"), 17));

    // tid:18 BTF_KIND_DATASEC
    id_to_type_map.insert(
        18,
        TypeVariant::DataSec(DataSec::create(
            Header::create(Kind::DataSec, 1, 3, false, 12),
            Some(String::from(".data")),
            12,
            vec![
                Variable {
                    var_decl_id: 17,
                    offset: 0,
                    var_size: 4,
                },
                Variable {
                    var_decl_id: 17,
                    offset: 4,
                    var_size: 4,
                },
                Variable {
                    var_decl_id: 17,
                    offset: 8,
                    var_size: 4,
                },
            ],
        )),
    );

    names.push((String::from(".data"), 18));

    // tid:19 BTF_KIND_FLOAT
    id_to_type_map.insert(
        19,
        TypeVariant::Float(Float::create(
            Header::create(Kind::Float, 1, 0, false, 8),
            Some(String::from("double")),
            8,
        )),
    );

    names.push((String::from("double"), 19));

    // tid:20 BTF_KIND_DECL_TAG
    id_to_type_map.insert(
        20,
        TypeVariant::DeclTag(DeclTag::create(
            Header::create(Kind::DeclTag, 1, 0, false, 6),
            Some(String::from("decl_tag")),
            6,
            0,
        )),
    );

    names.push((String::from("decl_tag"), 20));

    // tid:21 BTF_KIND_TYPE_TAG
    id_to_type_map.insert(
        21,
        TypeVariant::TypeTag(TypeTag::create(
            Header::create(Kind::TypeTag, 1, 0, false, 11),
            Some(String::from("type_tag")),
            11,
        )),
    );

    names.push((String::from("type_tag"), 21));

    // Additional nested structs/unions scenario:
    //
    // struct qstr {
    //   union {
    //     struct {
    //       int hash;
    //       int len;
    //     }
    //
    //     unsigned long int hash_len;
    //   }
    //
    //   unsigned long int name;
    // }
    //
    // struct dentry {
    //   int test1;
    //   struct qstr d_name;
    //   int test2;
    // }

    id_to_type_map.insert(
        100,
        TypeVariant::Int(Int::create(
            Header::create(Kind::Int, 1, 0, false, 8),
            Some(String::from("unsigned long int")),
            8,
            false,
            false,
            false,
            0,
            64,
        )),
    );

    id_to_type_map.insert(
        101,
        TypeVariant::Struct(Struct::create(
            Header::create(Kind::Struct, 0, 2, false, 8),
            None,
            8,
            vec![
                Member::create(1, Some(String::from("hash")), 1, Offset::ByteOffset(0)),
                Member::create(1, Some(String::from("len")), 1, Offset::ByteOffset(4)),
            ],
        )),
    );

    id_to_type_map.insert(
        102,
        TypeVariant::Union(Union::create(
            Header::create(Kind::Union, 0, 2, false, 8),
            None,
            8,
            vec![
                Member::create(0, None, 101, Offset::ByteOffset(0)),
                Member::create(
                    1,
                    Some(String::from("hash_len")),
                    100,
                    Offset::ByteOffset(0),
                ),
            ],
        )),
    );

    id_to_type_map.insert(
        103,
        TypeVariant::Struct(Struct::create(
            Header::create(Kind::Struct, 1, 2, false, 8),
            Some(String::from("qstr")),
            8,
            vec![
                Member::create(0, None, 102, Offset::ByteOffset(0)),
                Member::create(1, Some(String::from("name")), 100, Offset::ByteOffset(8)),
            ],
        )),
    );

    id_to_type_map.insert(
        104,
        TypeVariant::Struct(Struct::create(
            Header::create(Kind::Struct, 1, 3, false, 16),
            Some(String::from("dentry")),
            8,
            vec![
                Member::create(1, Some(String::from("test1")), 1, Offset::ByteOffset(0)),
                Member::create(
                    1,
                    Some(String::from("d_name")),
                    103,
                    Offset::ByteOffset(32),
                ),
                Member::create(
                    1,
                    Some(String::from("test2")),
                    1,
                    Offset::ByteOffset(256),
                ),
            ],
        )),
    );

    (id_to_type_map, names)
}

fn get_test_type_info() -> TypeInformation {
    let (id_to_type_map, names) = get_test_types();
    TypeInformation::create(id_to_type_map, names)
}

#[test]
fn type_information_test_size_of() {
    let type_info = get_test_type_info();

    // The void type has no size
    assert_eq!(type_info.name_of(0).unwrap(), "void");
    assert!(type_info.size_of(0).unwrap_err().kind() == ErrorKind::NotSized);

    // The int type has a size of 4
    assert_eq!(type_info.size_of(1).unwrap(), 4);

    // The ptr size is half the size of the `list_head` struct
    assert_eq!(type_info.size_of(2).unwrap(), 8);

    // The array has 10 u32 values
    assert_eq!(type_info.size_of(3).unwrap(), 40);

    // The anonymous struct is 8 bytes
    assert_eq!(type_info.size_of(4).unwrap(), 8);

    // The anonymous union is 8 bytes
    assert_eq!(type_info.size_of(5).unwrap(), 8);

    // The named struct is 28 bytes
    assert_eq!(type_info.size_of(6).unwrap(), 28);

    // The internal `list_head` struct is 16 bytes. This is used to determine the size of a ptr
    assert_eq!(type_info.size_of(7).unwrap(), 16);

    // The enum is 4 bytes
    assert_eq!(type_info.size_of(8).unwrap(), 4);

    // The enum64 is 8 bytes
    assert_eq!(type_info.size_of(9).unwrap(), 8);

    // A forward declaration of an undefined type can't be sized
    assert_eq!(type_info.name_of(10).unwrap(), "StructForwardDecl");
    assert!(type_info.size_of(10).unwrap_err().kind() == ErrorKind::NotSized);

    // The typedef references the named struct, which is 28 bytes
    assert_eq!(type_info.size_of(11).unwrap(), 28);

    // The volatile references the named struct `Struct`, which is 28 bytes
    assert_eq!(type_info.size_of(12).unwrap(), 28);

    // The const references the named struct `Struct`, which is 28 bytes
    assert_eq!(type_info.size_of(13).unwrap(), 28);

    // The restrict references the named struct `Struct`, which is 28 bytes
    assert_eq!(type_info.size_of(14).unwrap(), 28);

    // The BTF_KIND_FUNC has no size because it is not a type
    assert_eq!(type_info.name_of(15).unwrap(), "func");
    assert!(type_info.size_of(15).unwrap_err().kind() == ErrorKind::NotSized);

    // The BTF_KIND_FUNC_PROTO has no size
    assert!(type_info.size_of(16).unwrap_err().kind() == ErrorKind::NotSized);

    // The BTF_KIND_VAR variable has the size of its type (32-bit unsigned int)
    assert_eq!(type_info.size_of(17).unwrap(), 4);

    // The BTF_KIND_DATASEC variable has the size of its types (3x 32-bit unsigned int)
    assert_eq!(type_info.size_of(18).unwrap(), 12);

    // The BTF_KIND_FLOAT has a size of 8 bytes
    assert_eq!(type_info.size_of(19).unwrap(), 8);

    // The BTF_KIND_DECL_TAG has no size
    assert!(type_info.size_of(20).unwrap_err().kind() == ErrorKind::NotSized);

    // The BTF_KIND_TYPE_TAG has size of the type it is applied to (named struct)
    assert_eq!(type_info.size_of(21).unwrap(), 28);
}

#[test]
fn pointee_tid() {
    let type_info = get_test_type_info();
    assert_eq!(type_info.pointee_tid(2).unwrap(), 6);
}

#[test]
fn type_information_test_offset_of() {
    let type_info = get_test_type_info();

    // void, int, ptr, enum, enum64, fwd, float
    let no_deref_tid_list1 = [0, 1, 2, 8, 9, 10, 19];

    // func, func_proto, var, datasec, decl_tag, type tag
    let no_deref_tid_list2 = [15, 16, 17, 18, 20, 21];

    for tid in no_deref_tid_list1.iter().chain(no_deref_tid_list2.iter()) {
        assert_eq!(
            type_info.offset_of(*tid, "test").unwrap_err().kind(),
            ErrorKind::InvalidTypePath
        );

        assert_eq!(
            type_info.offset_of(*tid, "[0]").unwrap_err().kind(),
            ErrorKind::InvalidTypePath
        );
    }

    // Test invalid indexes
    assert_eq!(
        type_info
            .offset_of(3, "[10000000000000000000000000000]")
            .unwrap_err()
            .kind(),
        ErrorKind::InvalidTypePath
    );

    assert_eq!(
        type_info.offset_of(3, "[test]").unwrap_err().kind(),
        ErrorKind::InvalidTypePath
    );

    assert_eq!(
        type_info.offset_of(3, "test").unwrap_err().kind(),
        ErrorKind::InvalidTypePath
    );

    // Test valid indexes
    assert_eq!(
        type_info.offset_of(3, "[0]").unwrap(),
        (1, Offset::ByteOffset(0))
    );

    assert_eq!(
        type_info.offset_of(3, "[1]").unwrap(),
        (1, Offset::ByteOffset(4))
    );

    assert_eq!(
        type_info.offset_of(3, "[2]").unwrap(),
        (1, Offset::ByteOffset(8))
    );

    assert_eq!(
        type_info.offset_of(3, "[3]").unwrap(),
        (1, Offset::ByteOffset(12))
    );

    assert_eq!(
        type_info.offset_of(3, "[4]").unwrap(),
        (1, Offset::ByteOffset(16))
    );

    assert_eq!(
        type_info.offset_of(3, "[5]").unwrap(),
        (1, Offset::ByteOffset(20))
    );

    assert_eq!(
        type_info.offset_of(3, "[6]").unwrap(),
        (1, Offset::ByteOffset(24))
    );

    assert_eq!(
        type_info.offset_of(3, "[7]").unwrap(),
        (1, Offset::ByteOffset(28))
    );

    assert_eq!(
        type_info.offset_of(3, "[8]").unwrap(),
        (1, Offset::ByteOffset(32))
    );

    assert_eq!(
        type_info.offset_of(3, "[9]").unwrap(),
        (1, Offset::ByteOffset(36))
    );

    assert_eq!(
        type_info.offset_of(3, "[10]").unwrap_err().kind(),
        ErrorKind::InvalidTypePath
    );

    // Named struct and the typedef/const/volatile/restrict that reference it
    for struct_tid in [6, 11, 12, 13, 14] {
        let int_value_offset = type_info.offset_of(struct_tid, "int_value").unwrap();
        assert_eq!(int_value_offset, (1, Offset::ByteOffset(16 * 8)));

        let ptr_value_offset = type_info.offset_of(struct_tid, "ptr_value").unwrap();

        assert_eq!(ptr_value_offset, (2, Offset::ByteOffset(20 * 8)));

        let anon_struct_value1_offset = type_info
            .offset_of(struct_tid, "anon_struct_value1")
            .unwrap();

        assert_eq!(anon_struct_value1_offset, (1, Offset::ByteOffset(0)));

        let anon_struct_value2_offset = type_info
            .offset_of(struct_tid, "anon_struct_value2")
            .unwrap();

        assert_eq!(anon_struct_value2_offset, (1, Offset::ByteOffset(4 * 8)));

        let anon_union_value1_offset = type_info
            .offset_of(struct_tid, "anon_union_value1")
            .unwrap();

        assert_eq!(anon_union_value1_offset, (1, Offset::ByteOffset(8 * 8)));

        let anon_union_value2_offset = type_info
            .offset_of(struct_tid, "anon_union_value2")
            .unwrap();

        assert_eq!(anon_union_value2_offset, (2, Offset::ByteOffset(8 * 8)));
    }

    assert_eq!(
        type_info.offset_of(104, "test1").unwrap(),
        (1, Offset::ByteOffset(0))
    );

    assert_eq!(
        type_info.offset_of(104, "d_name").unwrap(),
        (103, Offset::ByteOffset(32))
    );

    assert_eq!(
        type_info.offset_of(104, "test2").unwrap(),
        (1, Offset::ByteOffset(256))
    );

    assert_eq!(
        type_info.offset_of(104, "d_name.hash").unwrap(),
        (1, Offset::ByteOffset(32))
    );

    assert_eq!(
        type_info.offset_of(104, "d_name.len").unwrap(),
        (1, Offset::ByteOffset(36))
    );

    assert_eq!(
        type_info.offset_of(104, "d_name.hash_len").unwrap(),
        (100, Offset::ByteOffset(32))
    );

    assert_eq!(
        type_info.offset_of(104, "d_name.name").unwrap(),
        (100, Offset::ByteOffset(40))
    );
}

#[test]
fn test_type_section_offset_overflow() {
    // Test overflow when calculating type section start (hdr_len + type_off)
    let readable_buffer = ReadableBuffer::new(&[
        //
        // BTF header
        //
        0x9F, 0xEB, // magic
        0x01, // version
        0x00, // flags
        0xFF, 0xFF, 0xFF, 0x7F, // hdr_len
        0xFF, 0xFF, 0xFF, 0x7F, // type_off
        0x01, 0x00, 0x00, 0x00, // type_len
        0x00, 0x00, 0x00, 0x00, // str_off
        0x01, 0x00, 0x00, 0x00, // str_len
    ]);

    let result = TypeInformation::new(&readable_buffer);
    assert!(result.is_err());
    if let Err(err) = result {
        assert_eq!(err.kind(), ErrorKind::InvalidTypeSectionOffset);
    }
}

#[test]
fn type_information_test_type_section_end_overflow() {
    // Test overflow when calculating type section end (start + type_len)
    let readable_buffer = ReadableBuffer::new(&[
        //
        // BTF header
        //
        0x9F, 0xEB, // magic
        0x01, // version
        0x00, // flags
        0x18, 0x00, 0x00, 0x00, // hdr_len
        0x00, 0x00, 0x00, 0xFF, // type_off
        0xFF, 0xFF, 0xFF, 0x01, // type_len
        0x00, 0x00, 0x00, 0x00, // str_off
        0x01, 0x00, 0x00, 0x00, // str_len
    ]);

    let result = TypeInformation::new(&readable_buffer);
    assert!(result.is_err());
    if let Err(err) = result {
        assert_eq!(err.kind(), ErrorKind::InvalidTypeSectionOffset);
    }
}

#[test]
fn test_array_element_offset_overflow() {
    // Create an array with very large element size that will overflow
    // when calculating offset at high indexes
    let (mut id_to_type_map, names) = get_test_types();

    // tid:200 - Large int type (size close to u32::MAX / small divisor)
    id_to_type_map.insert(
        200,
        TypeVariant::Int(Int::create(
            Header::create(Kind::Int, 1, 0, false, 0x10000000),
            Some(String::from("huge_int")),
            0x10000000,
            false,
            false,
            false,
            0,
            32,
        )),
    );

    // tid:201 - Array of 100 huge_ints
    id_to_type_map.insert(
        201,
        TypeVariant::Array(Array::create(
            Header::create(Kind::Array, 0, 0, false, 0),
            200, // element type
            200, // index type
            100, // element count
        )),
    );

    let type_info = TypeInformation::create(id_to_type_map, names);

    let result = type_info.offset_of(201, "[20]");
    assert!(result.is_err());
    assert_eq!(result.unwrap_err().kind(), ErrorKind::InvalidTypePath);

    let result = type_info.offset_of(201, "[0]");
    assert!(result.is_ok());
}

#[test]
fn test_split_path_components() {
    let type_path = TypeInformation::split_path_components("").unwrap();
    assert!(type_path.is_empty());

    let type_path = TypeInformation::split_path_components("[1]").unwrap();
    assert_eq!(type_path.len(), 1);
    assert_eq!(type_path[0], TypePathComponent::Index(1));

    let type_path = TypeInformation::split_path_components("[1][2]").unwrap();
    assert_eq!(type_path.len(), 2);
    assert_eq!(type_path[0], TypePathComponent::Index(1));
    assert_eq!(type_path[1], TypePathComponent::Index(2));

    let type_path = TypeInformation::split_path_components("test").unwrap();
    assert_eq!(type_path.len(), 1);
    assert_eq!(type_path[0], TypePathComponent::Name("test"));

    let type_path = TypeInformation::split_path_components("array[10]").unwrap();
    assert_eq!(type_path.len(), 2);
    assert_eq!(type_path[0], TypePathComponent::Name("array"));
    assert_eq!(type_path[1], TypePathComponent::Index(10));

    let type_path = TypeInformation::split_path_components("array[10].array2[11]").unwrap();
    assert_eq!(type_path.len(), 4);
    assert_eq!(type_path[0], TypePathComponent::Name("array"));
    assert_eq!(type_path[1], TypePathComponent::Index(10));
    assert_eq!(type_path[2], TypePathComponent::Name("array2"));
    assert_eq!(type_path[3], TypePathComponent::Index(11));

    TypeInformation::split_path_components(".value").unwrap_err();
    TypeInformation::split_path_components(".[10]").unwrap_err();
    TypeInformation::split_path_components("[value").unwrap_err();
    TypeInformation::split_path_components("]value").unwrap_err();
    TypeInformation::split_path_components("1").unwrap_err();
    TypeInformation::split_path_components("array[10]value").unwrap_err();
    TypeInformation::split_path_components("array[]").unwrap_err();
    TypeInformation::split_path_components("[]").unwrap_err();
}
