use crate::btf::error::{and_then, Error, ErrorKind};
use crate::btf::file_header::FileHeader;
use crate::btf::readable::Readable;
use crate::utils::reader::{u8_at, Endianness, Reader};
use crate::utils::text::push_char;
use vstd::prelude::*;

verus! {

/// Where the string section of a file starts and ends, or
/// `InvalidStringOffset` where one of the two does not fit in 32 bits.
pub open spec fn string_section(file_header: FileHeader) -> Result<(u32, u32), ErrorKind> {
    let start = file_header.hdr_len + file_header.str_off;
    let end = start + file_header.str_len;
    if end > u32::MAX {
        Err(ErrorKind::InvalidStringOffset)
    } else {
        Ok((start as u32, end as u32))
    }
}

/// Where in the file the string at `string_offset` of the string section
/// starts, together with the end of the section. The start has to fit in 32
/// bits and to lie before that end.
pub open spec fn string_range(
    file_header: FileHeader,
    string_offset: u32,
) -> Result<(u32, u32), ErrorKind> {
    and_then(string_section(file_header), |section: (u32, u32)|
        if section.0 + string_offset > u32::MAX || section.0 + string_offset >= section.1 {
            Err(ErrorKind::InvalidStringOffset)
        } else {
            Ok(((section.0 + string_offset) as u32, section.1))
        })
}

/// The bytes of `content` from `from` up to the first zero byte, which has
/// to lie before `end`.
pub open spec fn terminated_bytes(
    content: Seq<u8>,
    endianness: Endianness,
    from: int,
    end: int,
) -> Result<Seq<u8>, ErrorKind>
    decreases end - from,
{
    if from >= end {
        Err(ErrorKind::InvalidString)
    } else {
        match u8_at(content, endianness, from) {
            Err(kind) => Err(kind),
            Ok(byte) => if byte == 0 {
                Ok(Seq::empty())
            } else {
                match terminated_bytes(content, endianness, from + 1, end) {
                    Ok(rest) => Ok(seq![byte] + rest),
                    Err(kind) => Err(kind),
                }
            },
        }
    }
}

/// The text that bytes stand for: each byte is one character, the one with
/// the byte's number.
pub open spec fn text_of(bytes: Seq<u8>) -> Seq<char> {
    Seq::new(bytes.len(), |i: int| bytes[i] as char)
}

/// The string at `string_offset` of the string section of `content`.
pub open spec fn string_at(
    content: Seq<u8>,
    endianness: Endianness,
    file_header: FileHeader,
    string_offset: u32,
) -> Result<Seq<char>, ErrorKind> {
    and_then(string_range(file_header, string_offset), |range: (u32, u32)|
        and_then(terminated_bytes(content, endianness, range.0 as int, range.1 as int), |bytes: Seq<u8>|
            Ok(text_of(bytes))))
}

/// What a name offset stands for: no name where it is zero, else the string
/// at that offset.
pub open spec fn name_at(
    content: Seq<u8>,
    endianness: Endianness,
    file_header: FileHeader,
    name_offset: u32,
) -> Result<Option<Seq<char>>, ErrorKind> {
    if name_offset == 0 {
        Ok(None)
    } else {
        and_then(string_at(content, endianness, file_header, name_offset), |name: Seq<char>| Ok(Some(name)))
    }
}

/// Whether a decoded string is what the bytes of the source determine, when
/// it may also have failed in transport.
pub open spec fn text_agrees(
    r: Result<String, Error>,
    expected: Result<Seq<char>, ErrorKind>,
    reliable: bool,
) -> bool {
    match r {
        Ok(text) => expected == Ok::<Seq<char>, ErrorKind>(text@),
        Err(e) => expected == Err::<Seq<char>, ErrorKind>(e.kind) || (!reliable && e.kind == ErrorKind::IOError),
    }
}

/// Whether a decoded name is what the bytes of the source determine, when
/// it may also have failed in transport.
pub open spec fn name_agrees(
    r: Result<Option<String>, Error>,
    expected: Result<Option<Seq<char>>, ErrorKind>,
    reliable: bool,
) -> bool {
    match r {
        Ok(Some(text)) => expected == Ok::<Option<Seq<char>>, ErrorKind>(Some(text@)),
        Ok(None) => expected == Ok::<Option<Seq<char>>, ErrorKind>(None),
        Err(e) => expected == Err::<Option<Seq<char>>, ErrorKind>(e.kind) || (!reliable && e.kind
            == ErrorKind::IOError),
    }
}

/// Computes where the string at `string_offset` starts and where the string
/// section ends.
pub fn string_bounds(file_header: &FileHeader, string_offset: u32) -> (r: Result<(u32, u32), Error>)
    ensures
        match r {
            Ok(range) => string_range(*file_header, string_offset) == Ok::<(u32, u32), ErrorKind>(range),
            Err(e) => string_range(*file_header, string_offset) is Err && e.kind
                == ErrorKind::InvalidStringOffset,
        },
{
    let string_section_start = match file_header.hdr_len().checked_add(file_header.str_off()) {
        Some(start) => start,
        None => {
            return Err(
                Error::new(ErrorKind::InvalidStringOffset, "String section start offset overflow"),
            );
        },
    };
    let string_section_end = match string_section_start.checked_add(file_header.str_len()) {
        Some(end) => end,
        None => {
            return Err(Error::new(ErrorKind::InvalidStringOffset, "String section end offset overflow"));
        },
    };
    let string_start = match string_section_start.checked_add(string_offset) {
        Some(start) => start,
        None => {
            return Err(Error::new(ErrorKind::InvalidStringOffset, "String offset overflow"));
        },
    };
    if string_start >= string_section_end {
        return Err(
            Error::new(
                ErrorKind::InvalidStringOffset,
                crate::utils::text::with_number("Invalid string offset ", string_start as u64).as_str(),
            ),
        );
    }
    Ok((string_start, string_section_end))
}

/// Returns the string at offset `string_offset`
pub fn parse_string<R: Readable>(
    reader: &mut Reader<R>,
    file_header: &FileHeader,
    string_offset: u32,
) -> (r: Result<String, Error>)
    ensures
        final(reader).same_source(old(reader)),
        final(reader).offset == old(reader).offset,
        text_agrees(
            r,
            string_at(old(reader).content(), old(reader).endianness, *file_header, string_offset),
            old(reader).reliable(),
        ),
{
    let (string_start, string_section_end) = match string_bounds(file_header, string_offset) {
        Ok(range) => range,
        Err(e) => { return Err(e); },
    };
    let saved_offset = reader.offset();
    reader.set_offset(string_start as usize);
    let ghost content = reader.content();
    let ghost endianness = reader.endianness;
    let ghost whole = terminated_bytes(content, endianness, string_start as int, string_section_end as int);

    let mut string = String::new();
    let ghost mut bytes = Seq::<u8>::empty();
    loop
        invariant_except_break
            whole == match terminated_bytes(
                content,
                endianness,
                reader.offset as int,
                string_section_end as int,
            ) {
                Ok(rest) => Ok::<Seq<u8>, ErrorKind>(bytes + rest),
                Err(kind) => Err(kind),
            },
        invariant
            reader.same_source(old(reader)),
            saved_offset == old(reader).offset,
            content == reader.content(),
            endianness == reader.endianness,
            string@ == text_of(bytes),
            string_range(*file_header, string_offset) == Ok::<(u32, u32), ErrorKind>(
                (string_start, string_section_end),
            ),
            whole == terminated_bytes(content, endianness, string_start as int, string_section_end as int),
        ensures
            whole == Ok::<Seq<u8>, ErrorKind>(bytes),
        decreases string_section_end - reader.offset,
    {
        if reader.offset() >= string_section_end as usize {
            reader.set_offset(saved_offset);
            return Err(
                Error::new(
                    ErrorKind::InvalidString,
                    crate::utils::text::with_number(
                        "No null terminates the string at offset ",
                        string_start as u64,
                    ).as_str(),
                ),
            );
        }
        let byte = match reader.u8() {
            Ok(byte) => byte,
            Err(e) => {
                reader.set_offset(saved_offset);
                return Err(e);
            },
        };
        if byte == 0 {
            proof {
                assert(bytes + Seq::<u8>::empty() =~= bytes);
            }
            break ;
        }
        proof {
            let rest = terminated_bytes(content, endianness, reader.offset as int, string_section_end as int);
            if rest is Ok {
                assert(bytes + (seq![byte] + rest->Ok_0) =~= bytes.push(byte) + rest->Ok_0);
            }
            assert(text_of(bytes.push(byte)) =~= text_of(bytes).push(byte as char));
            bytes = bytes.push(byte);
        }
        push_char(&mut string, byte as char);
    }
    reader.set_offset(saved_offset);
    Ok(string)
}

/// Returns the name at `name_offset`, which is absent where the offset is zero
pub fn parse_name<R: Readable>(
    reader: &mut Reader<R>,
    file_header: &FileHeader,
    name_offset: u32,
) -> (r: Result<Option<String>, Error>)
    ensures
        final(reader).same_source(old(reader)),
        final(reader).offset == old(reader).offset,
        name_agrees(
            r,
            name_at(old(reader).content(), old(reader).endianness, *file_header, name_offset),
            old(reader).reliable(),
        ),
{
    if name_offset != 0 {
        match parse_string(reader, file_header, name_offset) {
            Ok(name) => Ok(Some(name)),
            Err(e) => Err(e),
        }
    } else {
        Ok(None)
    }
}

} // verus!
