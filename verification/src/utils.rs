pub mod readable_buffer;
pub mod reader;
pub mod text;
