pub mod array;
pub mod bound;
pub mod const_type;
pub mod data_sec;
pub mod decl_tag;
pub mod enum32;
pub mod enum64;
pub mod error;
pub mod file_header;
pub mod float_type;
pub mod func;
pub mod func_proto;
pub mod graph;
pub mod fwd;
pub mod header;
pub mod int_type;
pub mod kind;
pub mod laws;
pub mod model;
pub mod offset;
pub mod offset_error;
pub mod ptr;
pub mod readable;
pub mod restrict;
pub mod string;
pub mod struct_union;
pub mod type_information;
pub mod type_path;
pub mod type_tag;
pub mod type_trait;
pub mod type_variant;
pub mod typedef;
pub mod var;
pub mod volatile;
