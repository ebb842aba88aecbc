use btfparse::btf::data_sec::DataSec;
use btfparse::btf::decl_tag::DeclTag;
use btfparse::btf::enum64::{Enum64, IntegerValue};
use btfparse::btf::file_header::FileHeader;
use btfparse::btf::header::Header;
use btfparse::btf::int_type::Int;
use btfparse::btf::kind::Kind;
use btfparse::btf::offset::Offset;
use btfparse::btf::struct_union::Struct;
use btfparse::btf::type_information::TypeInformation;
use btfparse::btf::type_trait::Type;
use btfparse::btf::type_variant::TypeVariant;
use btfparse::utils::readable_buffer::ReadableBuffer;
use btfparse::utils::reader::{Endianness, Reader};
use btfparse::{Error, ErrorKind, Readable};

/// Builds BTF data in memory
struct Blob {
    big_endian: bool,
    types: Vec<u8>,
    strings: Vec<u8>,
}

impl Blob {
    fn new(big_endian: bool) -> Self {
        Blob { big_endian, types: Vec::new(), strings: vec![0] }
    }

    fn u32(&self, value: u32) -> [u8; 4] {
        if self.big_endian {
            value.to_be_bytes()
        } else {
            value.to_le_bytes()
        }
    }

    fn string(&mut self, text: &str) -> u32 {
        let offset = self.strings.len() as u32;
        self.strings.extend_from_slice(text.as_bytes());
        self.strings.push(0);
        offset
    }

    fn word(&mut self, value: u32) {
        let bytes = self.u32(value);
        self.types.extend_from_slice(&bytes);
    }

    fn header(&mut self, name: &str, kind: u32, vlen: u32, kind_flag: bool, size_or_type: u32) {
        let name_offset = if name.is_empty() { 0 } else { self.string(name) };
        self.word(name_offset);
        self.word((kind << 24) | vlen | if kind_flag { 0x8000_0000 } else { 0 });
        self.word(size_or_type);
    }

    fn integer(&mut self, name: &str, size: u32, bits: u32) {
        self.header(name, 1, 0, false, size);
        self.word(bits);
    }

    fn ptr(&mut self, tid: u32) {
        self.header("", 2, 0, false, tid);
    }

    fn array(&mut self, element_tid: u32, count: u32) {
        self.header("", 3, 0, false, 0);
        self.word(element_tid);
        self.word(1);
        self.word(count);
    }

    fn aggregate(&mut self, kind: u32, name: &str, size: u32, kind_flag: bool, members: &[(&str, u32, u32)]) {
        self.header(name, kind, members.len() as u32, kind_flag, size);
        for (member_name, tid, raw_offset) in members {
            let name_offset = if member_name.is_empty() { 0 } else { self.string(member_name) };
            self.word(name_offset);
            self.word(*tid);
            self.word(*raw_offset);
        }
    }

    fn reference(&mut self, kind: u32, name: &str, tid: u32) {
        self.header(name, kind, 0, false, tid);
    }

    fn build(&self) -> Vec<u8> {
        let mut data = Vec::new();
        if self.big_endian {
            data.extend_from_slice(&[0xEB, 0x9F]);
        } else {
            data.extend_from_slice(&[0x9F, 0xEB]);
        }
        data.push(1);
        data.push(0);
        data.extend_from_slice(&self.u32(24));
        data.extend_from_slice(&self.u32(0));
        data.extend_from_slice(&self.u32(self.types.len() as u32));
        data.extend_from_slice(&self.u32(self.types.len() as u32));
        data.extend_from_slice(&self.u32(self.strings.len() as u32));
        data.extend_from_slice(&self.types);
        data.extend_from_slice(&self.strings);
        data
    }
}

/// struct qstr { union { struct { int hash; int len; }; unsigned long hash_len; }; unsigned long name; }
/// struct dentry { int test1; struct qstr d_name; int test2; }
fn kernel_like(big_endian: bool) -> Vec<u8> {
    let mut blob = Blob::new(big_endian);
    blob.integer("int", 4, 32); // 1
    blob.integer("unsigned long", 8, 64); // 2
    blob.ptr(0); // 3
    blob.aggregate(4, "list_head", 16, false, &[("next", 3, 0), ("prev", 3, 64)]); // 4
    blob.aggregate(4, "", 8, false, &[("hash", 1, 0), ("len", 1, 32)]); // 5
    blob.aggregate(5, "", 8, false, &[("", 5, 0), ("hash_len", 2, 0)]); // 6
    blob.aggregate(4, "qstr", 16, false, &[("", 6, 0), ("name", 2, 64)]); // 7
    blob.aggregate(4, "dentry", 40, false, &[("test1", 1, 0), ("d_name", 7, 32), ("test2", 1, 256)]); // 8
    blob.reference(8, "dentry_t", 8); // 9 typedef
    blob.reference(10, "", 9); // 10 const
    blob.array(1, 10); // 11
    blob.reference(7, "later", 8); // 12 fwd
    blob.reference(18, "tag", 8); // 13 type tag
    blob.build()
}

fn header_of(type_variant: &TypeVariant) -> Option<Header> {
    match type_variant {
        TypeVariant::Void => None,
        TypeVariant::Int(inner) => Some(*inner.header()),
        TypeVariant::Typedef(inner) => Some(*inner.header()),
        TypeVariant::Enum(inner) => Some(*inner.header()),
        TypeVariant::Ptr(inner) => Some(*inner.header()),
        TypeVariant::Const(inner) => Some(*inner.header()),
        TypeVariant::Volatile(inner) => Some(*inner.header()),
        TypeVariant::Array(inner) => Some(*inner.header()),
        TypeVariant::FuncProto(inner) => Some(*inner.header()),
        TypeVariant::Struct(inner) => Some(*inner.header()),
        TypeVariant::Union(inner) => Some(*inner.header()),
        TypeVariant::Fwd(inner) => Some(*inner.header()),
        TypeVariant::Var(inner) => Some(*inner.header()),
        TypeVariant::Enum64(inner) => Some(*inner.header()),
        TypeVariant::Func(inner) => Some(*inner.header()),
        TypeVariant::Float(inner) => Some(*inner.header()),
        TypeVariant::Restrict(inner) => Some(*inner.header()),
        TypeVariant::DataSec(inner) => Some(*inner.header()),
        TypeVariant::TypeTag(inner) => Some(*inner.header()),
        TypeVariant::DeclTag(inner) => Some(*inner.header()),
    }
}

fn check_kernel_like(data: &[u8]) {
    let readable_buffer = ReadableBuffer::new(data);
    let type_info = TypeInformation::new(&readable_buffer).unwrap();

    assert_eq!(type_info.get().len(), 13);
    assert_eq!(type_info.get().keys().copied().collect::<Vec<u32>>(), (1..=13).collect::<Vec<u32>>());

    assert_eq!(type_info.id_of("void"), Some(0));
    assert_eq!(type_info.id_of("int"), Some(1));
    assert_eq!(type_info.id_of("qstr"), Some(7));
    assert_eq!(type_info.id_of("dentry_t"), Some(9));
    assert_eq!(type_info.id_of("missing"), None);
    assert_eq!(type_info.id_of(""), None);
    assert_eq!(type_info.name_of(0).as_deref(), Some("void"));
    assert_eq!(type_info.name_of(8).as_deref(), Some("dentry"));
    assert_eq!(type_info.name_of(3), None);
    assert_eq!(type_info.name_of(5), None);
    assert_eq!(type_info.name_of(14), None);

    assert!(matches!(type_info.from_id(0), Some(TypeVariant::Void)));
    assert!(matches!(type_info.from_id(3), Some(TypeVariant::Ptr(_))));
    assert!(matches!(type_info.from_id(9), Some(TypeVariant::Typedef(_))));
    assert!(type_info.from_id(14).is_none());

    assert_eq!(type_info.size_of(1).unwrap(), 4);
    assert_eq!(type_info.size_of(3).unwrap(), 8);
    assert_eq!(type_info.size_of(8).unwrap(), 40);
    assert_eq!(type_info.size_of(9).unwrap(), 40);
    assert_eq!(type_info.size_of(10).unwrap(), 40);
    assert_eq!(type_info.size_of(11).unwrap(), 40);
    assert_eq!(type_info.size_of(13).unwrap(), 40);
    assert_eq!(type_info.size_of(12).unwrap_err().kind(), ErrorKind::NotSized);
    assert_eq!(type_info.size_of(14).unwrap_err().kind(), ErrorKind::InvalidTypeID);

    assert_eq!(type_info.pointee_tid(3).unwrap(), 0);
    assert_eq!(type_info.pointee_tid(1).unwrap_err().kind(), ErrorKind::InvalidTypeID);
    assert_eq!(type_info.pointee_tid(0).unwrap_err().kind(), ErrorKind::InvalidTypeID);
    assert_eq!(type_info.pointee_tid(14).unwrap_err().kind(), ErrorKind::InvalidTypeID);

    assert_eq!(type_info.offset_of(7, "hash").unwrap(), (1, Offset::ByteOffset(0)));
    assert_eq!(type_info.offset_of(7, "len").unwrap(), (1, Offset::ByteOffset(4)));
    assert_eq!(type_info.offset_of(7, "hash_len").unwrap(), (2, Offset::ByteOffset(0)));
    assert_eq!(type_info.offset_of(7, "name").unwrap(), (2, Offset::ByteOffset(8)));
    assert_eq!(type_info.offset_of(8, "d_name.hash_len").unwrap(), (2, Offset::ByteOffset(4)));
    assert_eq!(type_info.offset_of(8, "d_name.len").unwrap(), (1, Offset::ByteOffset(8)));
    assert_eq!(type_info.offset_of(8, "test2").unwrap(), (1, Offset::ByteOffset(32)));
    // through the fwd, the const and the typedef
    assert_eq!(type_info.offset_of(12, "d_name.name").unwrap(), (2, Offset::ByteOffset(12)));
    assert_eq!(type_info.offset_of(10, "d_name").unwrap(), (7, Offset::ByteOffset(4)));
    // a type tag is not stepped through
    assert_eq!(type_info.offset_of(13, "d_name").unwrap_err().kind(), ErrorKind::InvalidTypePath);
    assert_eq!(type_info.offset_of(11, "[9]").unwrap(), (1, Offset::ByteOffset(36)));
    assert_eq!(type_info.offset_of(11, "[10]").unwrap_err().kind(), ErrorKind::InvalidTypePath);
    assert_eq!(type_info.offset_of(3, "[0]").unwrap_err().kind(), ErrorKind::InvalidTypePath);

    assert_eq!(type_info.offset_of_in_named_type("dentry", "d_name.hash").unwrap(), (1, Offset::ByteOffset(4)));
    assert_eq!(type_info.offset_of_in_named_type("dentry_t", "test1").unwrap(), (1, Offset::ByteOffset(0)));
    assert_eq!(
        type_info.offset_of_in_named_type("missing", "test1").unwrap_err().kind(),
        ErrorKind::InvalidTypeID
    );
    assert_eq!(type_info.offset_of_in_named_type("void", "").unwrap(), (0, Offset::ByteOffset(0)));
}

#[test]
fn graph_from_little_endian_source() {
    check_kernel_like(&kernel_like(false));
}

#[test]
fn graph_from_big_endian_source() {
    check_kernel_like(&kernel_like(true));
}

#[test]
fn names_are_indexed_where_the_kind_is_named_and_the_name_offset_is_set() {
    let data = kernel_like(false);
    let readable_buffer = ReadableBuffer::new(&data);
    let type_info = TypeInformation::new(&readable_buffer).unwrap();
    for (tid, type_variant) in type_info.get() {
        let header = header_of(type_variant).unwrap();
        let named_kind = !matches!(
            header.kind(),
            Kind::Ptr | Kind::Const | Kind::Volatile | Kind::Restrict | Kind::Array | Kind::FuncProto
        );
        assert_eq!(type_info.name_of(*tid).is_some(), named_kind && header.name_offset() != 0, "{tid}");
    }
}

#[test]
fn a_name_of_one_type_leads_back_to_it() {
    let data = kernel_like(false);
    let readable_buffer = ReadableBuffer::new(&data);
    let type_info = TypeInformation::new(&readable_buffer).unwrap();
    for tid in 0..=13u32 {
        if let Some(name) = type_info.name_of(tid) {
            assert_eq!(type_info.id_of(&name), Some(tid));
        }
    }
}

#[test]
fn of_types_that_share_a_name_the_last_wins() {
    let mut blob = Blob::new(false);
    blob.integer("same", 4, 32); // 1
    blob.integer("other", 2, 16); // 2
    blob.integer("same", 8, 64); // 3
    blob.reference(8, "void", 1); // 4, a typedef that is called void
    let data = blob.build();
    let readable_buffer = ReadableBuffer::new(&data);
    let type_info = TypeInformation::new(&readable_buffer).unwrap();
    assert_eq!(type_info.id_of("same"), Some(3));
    assert_eq!(type_info.name_of(1).as_deref(), Some("same"));
    assert_eq!(type_info.name_of(3).as_deref(), Some("same"));
    assert_eq!(type_info.id_of("other"), Some(2));
    assert_eq!(type_info.id_of("void"), Some(0));
    assert_eq!(type_info.name_of(4).as_deref(), Some("void"));
}

#[test]
fn empty_path_leads_to_the_type_itself() {
    let data = kernel_like(false);
    let readable_buffer = ReadableBuffer::new(&data);
    let type_info = TypeInformation::new(&readable_buffer).unwrap();
    for tid in [0u32, 1, 3, 8, 9, 12, 14, 1000] {
        assert_eq!(type_info.offset_of(tid, "").unwrap(), (tid, Offset::ByteOffset(0)));
    }
}

#[test]
fn void_has_no_members() {
    let data = kernel_like(false);
    let readable_buffer = ReadableBuffer::new(&data);
    let type_info = TypeInformation::new(&readable_buffer).unwrap();
    for path in ["a", "[0]", "a.b", "[", ".", "1"] {
        assert_eq!(type_info.offset_of(0, path).unwrap_err().kind(), ErrorKind::InvalidTypePath, "{path}");
    }
    assert_eq!(type_info.size_of(0).unwrap_err().kind(), ErrorKind::NotSized);
}

#[test]
fn failures_of_a_path_name_what_failed() {
    let data = kernel_like(false);
    let readable_buffer = ReadableBuffer::new(&data);
    let type_info = TypeInformation::new(&readable_buffer).unwrap();
    let error = type_info.offset_of(8, "d_name.missing").unwrap_err();
    assert_eq!(error.kind(), ErrorKind::InvalidTypePath);
    assert_eq!(error.message(), "Member 'missing' not found");
    let error = type_info.offset_of(11, "[10]").unwrap_err();
    assert_eq!(error.kind(), ErrorKind::InvalidTypePath);
    assert_eq!(error.message(), "Index 10 is out of bounds for array of size 10");
    let error = type_info.offset_of(14, "a").unwrap_err();
    assert_eq!(error.kind(), ErrorKind::InvalidTypeID);
    assert_eq!(error.message(), "Invalid type id");
    let error = type_info.offset_of(1, "a").unwrap_err();
    assert_eq!(error.message(), "Type is not a struct or union");
    let error = type_info.offset_of(1, "[0]").unwrap_err();
    assert_eq!(error.message(), "Type is not indexable");
    let error = type_info.offset_of(3, "[0]").unwrap_err();
    assert_eq!(error.message(), "Type is a ptr, and dereferencing it would require a read operation");
    let error = type_info.offset_of(0, "a").unwrap_err();
    assert_eq!(error.message(), "The void type can't be dereferenced with a path");
}

#[test]
fn a_malformed_path_fails_where_it_is_reached() {
    let data = kernel_like(false);
    let readable_buffer = ReadableBuffer::new(&data);
    let type_info = TypeInformation::new(&readable_buffer).unwrap();
    // the id is looked up before the malformed second component is reached
    assert_eq!(type_info.offset_of(14, "a[").unwrap_err().kind(), ErrorKind::InvalidTypeID);
    assert_eq!(type_info.offset_of(14, "$").unwrap_err().kind(), ErrorKind::InvalidTypePath);
    assert_eq!(type_info.offset_of(8, "test1$").unwrap_err().kind(), ErrorKind::InvalidTypePath);
    assert_eq!(type_info.offset_of(8, "d_name.").unwrap(), (7, Offset::ByteOffset(4)));
}

#[test]
fn pointer_size_needs_the_list_head_struct() {
    let mut blob = Blob::new(false);
    blob.integer("int", 4, 32); // 1
    blob.ptr(1); // 2
    let data = blob.build();
    let readable_buffer = ReadableBuffer::new(&data);
    let type_info = TypeInformation::new(&readable_buffer).unwrap();
    assert_eq!(type_info.size_of(2).unwrap_err().kind(), ErrorKind::InvalidTypeID);

    let mut blob = Blob::new(false);
    blob.integer("list_head", 16, 32); // 1, not a struct
    blob.ptr(1); // 2
    let data = blob.build();
    let readable_buffer = ReadableBuffer::new(&data);
    let type_info = TypeInformation::new(&readable_buffer).unwrap();
    assert_eq!(type_info.size_of(2).unwrap_err().kind(), ErrorKind::InvalidTypeID);

    let mut blob = Blob::new(false);
    blob.ptr(0); // 1
    blob.aggregate(4, "list_head", 9, false, &[]); // 2
    blob.array(1, 3); // 3
    let data = blob.build();
    let readable_buffer = ReadableBuffer::new(&data);
    let type_info = TypeInformation::new(&readable_buffer).unwrap();
    assert_eq!(type_info.size_of(1).unwrap(), 4);
    assert_eq!(type_info.size_of(3).unwrap(), 12);
    assert_eq!(type_info.offset_of(3, "[2]").unwrap(), (1, Offset::ByteOffset(8)));
}

#[test]
fn references_in_a_circle_end_in_a_failure() {
    let mut blob = Blob::new(false);
    blob.reference(8, "a", 2); // 1 typedef -> 2
    blob.reference(10, "", 1); // 2 const -> 1
    blob.array(3, 2); // 3 array of itself
    blob.aggregate(4, "s", 8, false, &[("", 4, 0), ("x", 1, 0)]); // 4 struct with itself as anonymous member
    blob.reference(8, "self", 5); // 5 typedef -> 5
    let data = blob.build();
    let readable_buffer = ReadableBuffer::new(&data);
    let type_info = TypeInformation::new(&readable_buffer).unwrap();
    assert_eq!(type_info.size_of(1).unwrap_err().kind(), ErrorKind::InvalidTypeID);
    assert_eq!(type_info.size_of(2).unwrap_err().kind(), ErrorKind::InvalidTypeID);
    assert_eq!(type_info.size_of(3).unwrap_err().kind(), ErrorKind::InvalidTypeID);
    assert_eq!(type_info.size_of(5).unwrap_err().kind(), ErrorKind::InvalidTypeID);
    assert_eq!(type_info.pointee_tid(1).unwrap_err().kind(), ErrorKind::InvalidTypeID);
    assert_eq!(type_info.pointee_tid(5).unwrap_err().kind(), ErrorKind::InvalidTypeID);
    assert_eq!(type_info.offset_of(1, "x").unwrap_err().kind(), ErrorKind::InvalidTypeID);
    assert_eq!(type_info.offset_of(3, "[0]").unwrap_err().kind(), ErrorKind::InvalidTypeID);
    assert_eq!(type_info.offset_of(4, "x").unwrap(), (1, Offset::ByteOffset(0)));
    assert_eq!(type_info.offset_of(4, "y").unwrap_err().kind(), ErrorKind::InvalidTypePath);
    assert_eq!(type_info.offset_of(1, "").unwrap(), (1, Offset::ByteOffset(0)));
}

#[test]
fn a_long_chain_of_references_is_followed_to_its_end() {
    let mut blob = Blob::new(false);
    blob.integer("int", 4, 32); // 1
    for tid in 2..=200u32 {
        blob.reference(8, "t", tid - 1);
    }
    let data = blob.build();
    let readable_buffer = ReadableBuffer::new(&data);
    let type_info = TypeInformation::new(&readable_buffer).unwrap();
    assert_eq!(type_info.size_of(200).unwrap(), 4);
    assert_eq!(type_info.offset_of(200, "a").unwrap_err().kind(), ErrorKind::InvalidTypePath);
    assert_eq!(type_info.id_of("t"), Some(200));
}

#[test]
fn array_size_that_does_not_fit() {
    let mut blob = Blob::new(false);
    blob.integer("huge", 0xFFFF_FFFF, 32); // 1
    blob.array(1, 0xFFFF_FFFF); // 2
    blob.array(2, 0xFFFF_FFFF); // 3
    blob.array(1, 0); // 4
    let data = blob.build();
    let readable_buffer = ReadableBuffer::new(&data);
    let type_info = TypeInformation::new(&readable_buffer).unwrap();
    if usize::BITS == 64 {
        assert_eq!(type_info.size_of(2).unwrap(), 0xFFFF_FFFF * 0xFFFF_FFFF);
    }
    assert_eq!(type_info.size_of(3).unwrap_err().kind(), ErrorKind::InvalidOffset);
    assert_eq!(type_info.size_of(4).unwrap(), 0);
    assert_eq!(type_info.offset_of(2, "[0]").unwrap(), (1, Offset::ByteOffset(0)));
    assert_eq!(type_info.offset_of(2, "[1]").unwrap(), (1, Offset::ByteOffset(0xFFFF_FFFF)));
    assert_eq!(type_info.offset_of(2, "[2]").unwrap_err().kind(), ErrorKind::InvalidTypePath);
    assert_eq!(type_info.offset_of(3, "[1][1]").unwrap_err().kind(), ErrorKind::InvalidTypePath);
    assert_eq!(type_info.offset_of(4, "[0]").unwrap_err().kind(), ErrorKind::InvalidTypePath);
}

#[test]
fn offset_that_does_not_fit() {
    let mut blob = Blob::new(false);
    blob.integer("huge", 0xFFFF_FFFF, 32); // 1
    blob.array(1, 2); // 2
    blob.aggregate(4, "s", 32, false, &[("first", 1, 0), ("list", 2, 128)]); // 3
    blob.aggregate(4, "t", 32, false, &[("first", 1, 0), ("tail", 3, 0xFFFF_FFF8)]); // 4
    let data = blob.build();
    let readable_buffer = ReadableBuffer::new(&data);
    let type_info = TypeInformation::new(&readable_buffer).unwrap();
    assert_eq!(type_info.offset_of(3, "list[0]").unwrap(), (1, Offset::ByteOffset(16)));
    assert_eq!(type_info.offset_of(3, "list[1]").unwrap_err().kind(), ErrorKind::InvalidOffset);
    assert_eq!(type_info.offset_of(4, "tail.first").unwrap(), (1, Offset::ByteOffset(0x1FFF_FFFF)));
    assert_eq!(type_info.offset_of(4, "tail.list").unwrap(), (2, Offset::ByteOffset(0x2000_000F)));
}

#[test]
fn bitfield_members() {
    let mut blob = Blob::new(false);
    blob.integer("int", 4, 32); // 1
    // a struct with the kind flag: a at bit 0 of size 3, b at bit 3 of size 5, c at byte 1
    blob.aggregate(4, "flags", 4, true, &[("a", 1, 0x0300_0000), ("b", 1, 0x0500_0003), ("c", 1, 8)]); // 2
    blob.aggregate(4, "outer", 8, false, &[("first", 1, 0), ("inner", 2, 32)]); // 3
    blob.aggregate(4, "point", 8, false, &[("x", 1, 0), ("y", 1, 32)]); // 4
    blob.aggregate(4, "odd", 12, true, &[("field", 4, 0x0400_0002), ("", 4, 0x0400_0002), ("deep", 6, 0x0200_0001)]); // 5
    blob.aggregate(4, "wrap", 8, false, &[("", 4, 0)]); // 6
    let data = blob.build();
    let readable_buffer = ReadableBuffer::new(&data);
    let type_info = TypeInformation::new(&readable_buffer).unwrap();
    assert_eq!(type_info.offset_of(2, "a").unwrap(), (1, Offset::BitOffsetAndSize(0, 3)));
    assert_eq!(type_info.offset_of(2, "b").unwrap(), (1, Offset::BitOffsetAndSize(3, 5)));
    assert_eq!(type_info.offset_of(2, "c").unwrap(), (1, Offset::ByteOffset(1)));
    assert_eq!(type_info.offset_of(3, "inner.b").unwrap(), (1, Offset::BitOffsetAndSize(35, 5)));
    assert_eq!(type_info.offset_of(3, "inner.c").unwrap(), (1, Offset::ByteOffset(5)));
    // nothing lies inside a bitfield
    assert_eq!(type_info.offset_of(5, "field.x").unwrap_err().kind(), ErrorKind::UnexpectedBitfield);
    assert_eq!(type_info.offset_of(5, "field").unwrap(), (4, Offset::BitOffsetAndSize(2, 4)));
    // a failure behind an anonymous member is passed over
    assert_eq!(type_info.offset_of(5, "x").unwrap_err().kind(), ErrorKind::InvalidTypePath);
    // the offset of an anonymous member inside a bitfield cannot be formed
    assert_eq!(type_info.offset_of(5, "deep.x").unwrap_err().kind(), ErrorKind::UnexpectedBitfield);
    assert_eq!(type_info.offset_of(6, "y").unwrap(), (1, Offset::ByteOffset(4)));
}

#[test]
fn anonymous_members_are_probed_before_named_ones() {
    let mut blob = Blob::new(false);
    blob.integer("int", 4, 32); // 1
    blob.integer("long", 8, 64); // 2
    blob.aggregate(4, "", 8, false, &[("v", 2, 0)]); // 3
    blob.aggregate(4, "", 8, false, &[("w", 1, 32), ("v", 1, 0)]); // 4
    blob.aggregate(4, "s", 24, false, &[("v", 1, 0), ("", 4, 64), ("", 3, 128)]); // 5
    let data = blob.build();
    let readable_buffer = ReadableBuffer::new(&data);
    let type_info = TypeInformation::new(&readable_buffer).unwrap();
    // the first anonymous member through which the path leads wins over the named member
    assert_eq!(type_info.offset_of(5, "v").unwrap(), (1, Offset::ByteOffset(8)));
    assert_eq!(type_info.offset_of(5, "w").unwrap(), (1, Offset::ByteOffset(12)));
    assert_eq!(type_info.offset_of(5, "v[0]").unwrap_err().kind(), ErrorKind::InvalidTypePath);
}

#[test]
fn minimal_data_can_be_rebuilt_from_what_was_decoded() {
    let mut blob = Blob::new(false);
    blob.integer("int", 4, 0x0100_0020);
    let data = blob.build();

    let readable_buffer = ReadableBuffer::new(&data);
    let mut reader = Reader::new(&readable_buffer);
    let file_header = FileHeader::new(&mut reader).unwrap();
    assert_eq!(reader.endianness(), Endianness::Little);
    reader.set_offset((file_header.hdr_len() + file_header.type_off()) as usize);
    let type_header = Header::new(&mut reader, &file_header).unwrap();
    let int_type = Int::new(&mut reader, &file_header, type_header).unwrap();

    let mut rebuilt = vec![0x9F, 0xEB, file_header.version(), file_header.flags()];
    for field in [
        file_header.hdr_len(),
        file_header.type_off(),
        file_header.type_len(),
        file_header.str_off(),
        file_header.str_len(),
    ] {
        rebuilt.extend_from_slice(&field.to_le_bytes());
    }
    rebuilt.extend_from_slice(&int_type.header().name_offset().to_le_bytes());
    let kind_number: u32 = match int_type.header().kind() {
        Kind::Int => 1,
        _ => unreachable!(),
    };
    let info = (kind_number << 24)
        | int_type.header().vlen() as u32
        | if int_type.header().kind_flag() { 0x8000_0000 } else { 0 };
    rebuilt.extend_from_slice(&info.to_le_bytes());
    rebuilt.extend_from_slice(&(*int_type.size() as u32).to_le_bytes());
    let encoding: u32 = (*int_type.signed() as u32) | (*int_type.char() as u32) << 1 | (*int_type.boolean() as u32) << 2;
    let word = encoding << 24 | (*int_type.offset() as u32) << 16 | *int_type.bits() as u32;
    rebuilt.extend_from_slice(&word.to_le_bytes());
    rebuilt.push(0);
    rebuilt.extend_from_slice(int_type.name().as_deref().unwrap().as_bytes());
    rebuilt.push(0);
    assert_eq!(rebuilt, data);
}

/// A source that fails in transport
struct BrokenSource;

impl Readable for BrokenSource {
    fn read(&self, _offset: u64, _buffer: &mut [u8]) -> Result<(), Error> {
        Err(Error::new(ErrorKind::IOError, "the cable was cut"))
    }
}

#[test]
fn failures_of_building_a_graph() {
    let error = TypeInformation::new(&BrokenSource).err().unwrap();
    assert_eq!(error.kind(), ErrorKind::IOError);
    assert_eq!(error.message(), "the cable was cut");

    let kind_of = |data: &[u8]| TypeInformation::new(&ReadableBuffer::new(data)).err().unwrap().kind();

    assert_eq!(kind_of(&[]), ErrorKind::EOF);
    assert_eq!(kind_of(&[0x9F]), ErrorKind::InvalidOffset);
    assert_eq!(kind_of(&[0x9F, 0xEB]), ErrorKind::EOF);
    assert_eq!(kind_of(&[0x9F, 0xEB, 1, 0, 24]), ErrorKind::InvalidOffset);
    assert_eq!(kind_of(&[0x9F, 0xEC, 1, 0, 24, 0, 0, 0]), ErrorKind::InvalidMagic);
    assert_eq!(kind_of(&[0xEB, 0x9E, 1, 0, 24, 0, 0, 0]), ErrorKind::InvalidMagic);

    // a header that does not fit in the type section
    let mut blob = Blob::new(false);
    blob.integer("int", 4, 32);
    let mut data = blob.build();
    data[12] = 15;
    assert_eq!(kind_of(&data), ErrorKind::InvalidTypeSectionOffset);
    // a tail that does not fit in the type section
    data[12] = 12;
    assert_eq!(kind_of(&data), ErrorKind::InvalidTypeSectionOffset);

    // kinds that do not exist
    for kind in [0u32, 20, 31] {
        let mut blob = Blob::new(false);
        blob.header("x", kind, 0, false, 0);
        assert_eq!(kind_of(&blob.build()), ErrorKind::InvalidBTFKind);
    }

    // a name that lies behind the string section, and one that is not terminated
    let mut blob = Blob::new(false);
    blob.integer("int", 4, 32);
    let mut data = blob.build();
    data[24] = 5;
    assert_eq!(kind_of(&data), ErrorKind::InvalidStringOffset);
    data[24] = 1;
    data[20] = 4;
    assert_eq!(kind_of(&data), ErrorKind::InvalidString);

    // data that ends inside the type section
    let mut blob = Blob::new(false);
    blob.integer("int", 4, 32);
    let data = blob.build();
    assert_eq!(kind_of(&data[..30]), ErrorKind::InvalidOffset);
    assert_eq!(kind_of(&data[..36]), ErrorKind::EOF);

    // a member at a bit offset in a struct without the kind flag
    let mut blob = Blob::new(false);
    blob.integer("int", 4, 32);
    blob.aggregate(4, "s", 4, false, &[("a", 1, 0), ("b", 1, 12)]);
    assert_eq!(kind_of(&blob.build()), ErrorKind::InvalidOffset);

    // an int that is signed and a char at once
    let mut blob = Blob::new(false);
    blob.integer("int", 4, 0x0300_0020);
    assert_eq!(kind_of(&blob.build()), ErrorKind::InvalidTypeHeaderAttribute);
}

#[test]
fn no_type_in_an_empty_type_section() {
    let blob = Blob::new(true);
    let data = blob.build();
    let readable_buffer = ReadableBuffer::new(&data);
    let type_info = TypeInformation::new(&readable_buffer).unwrap();
    assert!(type_info.get().is_empty());
    assert_eq!(type_info.id_of("void"), Some(0));
    assert_eq!(type_info.size_of(1).unwrap_err().kind(), ErrorKind::InvalidTypeID);
}

#[test]
fn wrong_kind_for_a_decoder() {
    let mut blob = Blob::new(false);
    blob.integer("int", 4, 32);
    let data = blob.build();
    let readable_buffer = ReadableBuffer::new(&data);
    let mut reader = Reader::new(&readable_buffer);
    let file_header = FileHeader::new(&mut reader).unwrap();
    let type_header = Header::new(&mut reader, &file_header).unwrap();
    let offset = reader.offset();
    assert_eq!(Struct::new(&mut reader, &file_header, type_header).unwrap_err().kind(), ErrorKind::InvalidBTFKind);
    assert_eq!(reader.offset(), offset);
    assert!(Int::new(&mut reader, &file_header, type_header).is_ok());
    assert_eq!(reader.offset(), offset + 4);
}

#[test]
fn enum_values_by_name_and_names_by_value() {
    let mut blob = Blob::new(false);
    let first = blob.string("first");
    let second = blob.string("second");
    blob.header("numbers", 19, 4, true, 8);
    for (name, low, high) in [(first, 1u32, 0u32), (second, 0xFFFF_FFFE, 0xFFFF_FFFF), (first, 3, 0), (second, 1, 0)] {
        blob.word(name);
        blob.word(low);
        blob.word(high);
    }
    let data = blob.build();
    let readable_buffer = ReadableBuffer::new(&data);
    let mut reader = Reader::new(&readable_buffer);
    let file_header = FileHeader::new(&mut reader).unwrap();
    let type_header = Header::new(&mut reader, &file_header).unwrap();
    let enum64 = Enum64::new(&mut reader, &file_header, type_header).unwrap();

    assert_eq!(enum64.data().value_list().len(), 4);
    assert_eq!(enum64.data().value("first"), vec![&IntegerValue::Signed(1), &IntegerValue::Signed(3)]);
    assert_eq!(enum64.data().value("second"), vec![&IntegerValue::Signed(-2), &IntegerValue::Signed(1)]);
    assert!(enum64.data().value("third").is_empty());
    assert_eq!(enum64.data().name(&IntegerValue::Signed(1)), vec!["first".to_string(), "second".to_string()]);
    assert_eq!(enum64.data().name(&IntegerValue::Signed(-2)), vec!["second".to_string()]);
    assert!(enum64.data().name(&IntegerValue::Unsigned(1)).is_empty());
    assert!(enum64.data().name(&IntegerValue::Signed(7)).is_empty());
}

#[test]
fn data_of_a_data_section_and_of_a_decl_tag() {
    let mut blob = Blob::new(true);
    blob.header(".bss", 15, 2, false, 24);
    for word in [7u32, 0, 8, 9, 8, 16] {
        blob.word(word);
    }
    blob.header("tag", 17, 0, false, 3);
    blob.word(0xFFFF_FFFF);
    let data = blob.build();
    let readable_buffer = ReadableBuffer::new(&data);
    let mut reader = Reader::new(&readable_buffer);
    let file_header = FileHeader::new(&mut reader).unwrap();

    let type_header = Header::new(&mut reader, &file_header).unwrap();
    let data_sec = DataSec::new(&mut reader, &file_header, type_header).unwrap();
    assert_eq!(data_sec.name().as_deref(), Some(".bss"));
    assert_eq!(*data_sec.size(), 24);
    let variable_list = data_sec.data().variable_list();
    assert_eq!(variable_list.len(), 2);
    assert_eq!(
        (variable_list[0].var_decl_id, variable_list[0].offset, variable_list[0].var_size),
        (7, 0, 8)
    );
    assert_eq!(
        (variable_list[1].var_decl_id, variable_list[1].offset, variable_list[1].var_size),
        (9, 8, 16)
    );

    let type_header = Header::new(&mut reader, &file_header).unwrap();
    let decl_tag = DeclTag::new(&mut reader, &file_header, type_header).unwrap();
    assert_eq!(decl_tag.data().component_index(), 0xFFFF_FFFF);
    assert_eq!(*decl_tag.component_index(), 0xFFFF_FFFF);
    assert_eq!(*decl_tag.tid(), 3);
    assert_eq!(decl_tag.name().as_deref(), Some("tag"));
}

#[test]
fn members_of_a_struct_with_anonymous_members() {
    let mut blob = Blob::new(false);
    blob.integer("unsigned int", 4, 32); // 1
    blob.ptr(1); // 2
    blob.aggregate(4, "", 8, false, &[("anon_struct_value1", 1, 0), ("anon_struct_value2", 1, 32)]); // 3
    blob.aggregate(5, "", 8, false, &[("anon_union_value1", 1, 0), ("anon_union_value2", 2, 0)]); // 4
    blob.aggregate(
        4,
        "Struct",
        28,
        false,
        &[("", 3, 0), ("", 4, 64), ("int_value", 1, 128), ("ptr_value", 2, 160)],
    ); // 5
    blob.aggregate(4, "list_head", 16, false, &[("next", 2, 0), ("prev", 2, 64)]); // 6
    blob.reference(8, "SA", 5); // 7
    blob.reference(9, "", 5); // 8
    blob.reference(10, "", 5); // 9
    blob.reference(11, "", 5); // 10
    let data = blob.build();
    let readable_buffer = ReadableBuffer::new(&data);
    let type_info = TypeInformation::new(&readable_buffer).unwrap();
    for tid in [5u32, 7, 8, 9, 10] {
        assert_eq!(type_info.offset_of(tid, "int_value").unwrap(), (1, Offset::ByteOffset(16)));
        assert_eq!(type_info.offset_of(tid, "anon_struct_value1").unwrap(), (1, Offset::ByteOffset(0)));
        assert_eq!(type_info.offset_of(tid, "anon_struct_value2").unwrap(), (1, Offset::ByteOffset(4)));
        assert_eq!(type_info.offset_of(tid, "anon_union_value1").unwrap(), (1, Offset::ByteOffset(8)));
        assert_eq!(type_info.offset_of(tid, "anon_union_value2").unwrap(), (2, Offset::ByteOffset(8)));
        assert_eq!(type_info.offset_of(tid, "ptr_value").unwrap(), (2, Offset::ByteOffset(20)));
        assert_eq!(type_info.size_of(tid).unwrap(), 28);
    }
    assert_eq!(type_info.size_of(2).unwrap(), 8);
    assert_eq!(type_info.pointee_tid(2).unwrap(), 1);
}

#[test]
fn sizes_are_positive_where_the_stated_sizes_are() {
    let data = kernel_like(false);
    let readable_buffer = ReadableBuffer::new(&data);
    let type_info = TypeInformation::new(&readable_buffer).unwrap();
    for tid in 0..=20u32 {
        match type_info.size_of(tid) {
            Ok(size) => assert!(size > 0, "{tid}"),
            Err(error) => assert!(
                matches!(error.kind(), ErrorKind::NotSized | ErrorKind::InvalidTypeID | ErrorKind::InvalidOffset),
                "{tid}"
            ),
        }
    }
}

#[test]
fn byte_offsets_of_decoded_members_fit_in_bits() {
    for (kind_flag, raw_offset) in [
        (false, 0u32),
        (false, 8),
        (false, 0xFFFF_FFF8),
        (true, 0),
        (true, 0x00FF_FFF8),
        (true, 0x0000_0008),
        (true, 0x0100_0008),
        (true, 0xFFFF_FFFF),
    ] {
        let mut blob = Blob::new(false);
        blob.integer("int", 4, 32); // 1
        blob.aggregate(4, "s", 4, kind_flag, &[("m", 1, raw_offset)]); // 2
        let data = blob.build();
        let readable_buffer = ReadableBuffer::new(&data);
        let type_info = TypeInformation::new(&readable_buffer).unwrap();
        match type_info.offset_of(2, "m").unwrap() {
            (1, Offset::ByteOffset(bytes)) => {
                assert!(bytes.checked_mul(8).is_some());
                if kind_flag {
                    assert_eq!(raw_offset >> 24, 0);
                    assert_eq!(bytes, (raw_offset & 0xFF_FFFF) / 8);
                } else {
                    assert_eq!(bytes, raw_offset / 8);
                }
            },
            (1, Offset::BitOffsetAndSize(bit_offset, bit_size)) => {
                assert!(kind_flag);
                assert_eq!(bit_offset, raw_offset & 0xFF_FFFF);
                assert_eq!(bit_size, raw_offset >> 24);
                assert!(bit_size != 0 || bit_offset % 8 != 0);
            },
            other => panic!("{other:?}"),
        }
    }
}
