use vstd::prelude::*;
use vstd::slice::slice_subrange;
use vstd::slice::slice_to_vec;

use crate::error::Error;
use crate::error::malformed_at;
use crate::error::malformed_msg;
use crate::error::msg_of;
use crate::reader;
use crate::reader::in_bounds;
use crate::reader::le16;
use crate::reader::le32;

verus! {

/// DOS header present in all PE binaries
#[derive(Debug, PartialEq, Copy, Clone, Default)]
pub struct DosHeader {
    /// Magic number: 5a4d
    pub signature: u16,
    /// Pointer to PE header, always at offset 0x3c
    pub pe_pointer: u32,
}

pub const DOS_MAGIC: u16 = 0x5a4d;

pub const PE_POINTER_OFFSET: u32 = 0x3c;

/// Whether the buffer is long enough for the whole DOS header, up to and
/// including the PE header pointer.
pub open spec fn dos_ok(b: Seq<u8>) -> bool {
    in_bounds(b, PE_POINTER_OFFSET as int, 4)
}

/// The fields a DOS header holds when read from `b`.
pub open spec fn dos_matches(b: Seq<u8>, h: DosHeader) -> bool {
    &&& h.signature as int == le16(b, 0)
    &&& h.pe_pointer as int == le32(b, PE_POINTER_OFFSET as int)
}

/// The message of the error a failed DOS header parse returns: the first
/// field that cannot be read, with its offset.
pub open spec fn dos_err_msg(b: Seq<u8>) -> Seq<char>
    recommends
        !dos_ok(b),
{
    if b.len() < 2 {
        malformed_msg("cannot parse DOS signature"@, 0)
    } else {
        malformed_msg("cannot parse PE header pointer"@, PE_POINTER_OFFSET as nat)
    }
}

impl DosHeader {
    /// Read the DOS signature at offset 0 and the PE header pointer at offset
    /// 0x3c.  The magic value is extracted, not checked: enforcement is the
    /// caller's choice.
    pub fn parse(bytes: &[u8]) -> (r: Result<Self, Error>)
        ensures
            match r {
                Ok(h) => dos_ok(bytes@) && dos_matches(bytes@, h),
                Err(e) => !dos_ok(bytes@) && msg_of(e) == dos_err_msg(bytes@),
            },
    {
        let signature = match reader::read_u16_at(bytes, 0) {
            Some(v) => v,
            None => {
                return Err(malformed_at("cannot parse DOS signature", 0));
            },
        };
        let pe_pointer = match reader::read_u32_at(bytes, PE_POINTER_OFFSET as usize) {
            Some(v) => v,
            None => {
                return Err(malformed_at("cannot parse PE header pointer", PE_POINTER_OFFSET as usize));
            },
        };
        Ok(DosHeader { signature, pe_pointer })
    }
}

/// COFF Header
#[derive(Debug, PartialEq, Copy, Clone, Default)]
pub struct CoffHeader {
    /// COFF Magic: PE\0\0, little endian
    pub signature: u32,
    /// The machine type
    pub machine: u16,
    pub number_of_sections: u16,
    pub time_date_stamp: u32,
    pub pointer_to_symbol_table: u32,
    pub number_of_symbol_table: u32,
    pub size_of_optional_header: u16,
    pub characteristics: u16,
}

pub const SIZEOF_COFF_HEADER: usize = 24;

/// PE\0\0, little endian
pub const COFF_MAGIC: u32 = 0x00004550;

pub const COFF_MACHINE_X86: u16 = 0x14c;

pub const COFF_MACHINE_X86_64: u16 = 0x8664;

/// Whether the buffer holds a whole COFF header at `off`.
pub open spec fn coff_ok(b: Seq<u8>, off: int) -> bool {
    in_bounds(b, off, SIZEOF_COFF_HEADER as int)
}

/// The fields a COFF header holds when read from `b` at `off`: the eight
/// fields in declaration order, at monotonically increasing offsets.
pub open spec fn coff_matches(b: Seq<u8>, off: int, c: CoffHeader) -> bool {
    &&& c.signature as int == le32(b, off)
    &&& c.machine as int == le16(b, off + 4)
    &&& c.number_of_sections as int == le16(b, off + 6)
    &&& c.time_date_stamp as int == le32(b, off + 8)
    &&& c.pointer_to_symbol_table as int == le32(b, off + 12)
    &&& c.number_of_symbol_table as int == le32(b, off + 16)
    &&& c.size_of_optional_header as int == le16(b, off + 20)
    &&& c.characteristics as int == le16(b, off + 22)
}

/// The offset of the first COFF field that cannot be read whole from `b`
/// when the header starts at `off`.
pub open spec fn coff_err_off(b: Seq<u8>, off: int) -> int
    recommends
        !coff_ok(b, off),
{
    if b.len() < off + 4 {
        off
    } else if b.len() < off + 6 {
        off + 4
    } else if b.len() < off + 8 {
        off + 6
    } else if b.len() < off + 12 {
        off + 8
    } else if b.len() < off + 16 {
        off + 12
    } else if b.len() < off + 20 {
        off + 16
    } else if b.len() < off + 22 {
        off + 20
    } else {
        off + 22
    }
}

/// The message of the error a failed COFF header parse returns: the first
/// field that cannot be read whole, with its offset.
pub open spec fn coff_err_msg(b: Seq<u8>, off: int) -> Seq<char>
    recommends
        !coff_ok(b, off),
        0 <= off,
{
    if b.len() < off + 4 {
        malformed_msg("cannot parse COFF signature"@, off as nat)
    } else if b.len() < off + 6 {
        malformed_msg("cannot parse COFF machine"@, (off + 4) as nat)
    } else if b.len() < off + 8 {
        malformed_msg("cannot parse COFF number of sections"@, (off + 6) as nat)
    } else if b.len() < off + 12 {
        malformed_msg("cannot parse COFF time date stamp"@, (off + 8) as nat)
    } else if b.len() < off + 16 {
        malformed_msg("cannot parse COFF pointer to symbol table"@, (off + 12) as nat)
    } else if b.len() < off + 20 {
        malformed_msg("cannot parse COFF number of symbol"@, (off + 16) as nat)
    } else if b.len() < off + 22 {
        malformed_msg("cannot parse COFF size of optional header"@, (off + 20) as nat)
    } else {
        malformed_msg("cannot parse COFF characteristics"@, (off + 22) as nat)
    }
}

impl CoffHeader {
    /// Read the eight COFF fields in order, advancing the shared cursor by
    /// each field's width.  A field that cannot be read whole aborts the
    /// parse at once, leaving the cursor on that field.
    pub fn parse(bytes: &[u8], offset: &mut usize) -> (r: Result<Self, Error>)
        ensures
            match r {
                Ok(c) => {
                    &&& coff_ok(bytes@, *old(offset) as int)
                    &&& coff_matches(bytes@, *old(offset) as int, c)
                    &&& *final(offset) == *old(offset) + SIZEOF_COFF_HEADER
                },
                Err(e) => {
                    &&& !coff_ok(bytes@, *old(offset) as int)
                    &&& msg_of(e) == coff_err_msg(bytes@, *old(offset) as int)
                    &&& *final(offset) == coff_err_off(bytes@, *old(offset) as int)
                },
            },
    {
        let signature = match reader::read_u32(bytes, offset) {
            Some(v) => v,
            None => {
                return Err(malformed_at("cannot parse COFF signature", *offset));
            },
        };
        let machine = match reader::read_u16(bytes, offset) {
            Some(v) => v,
            None => {
                return Err(malformed_at("cannot parse COFF machine", *offset));
            },
        };
        let number_of_sections = match reader::read_u16(bytes, offset) {
            Some(v) => v,
            None => {
                return Err(malformed_at("cannot parse COFF number of sections", *offset));
            },
        };
        let time_date_stamp = match reader::read_u32(bytes, offset) {
            Some(v) => v,
            None => {
                return Err(malformed_at("cannot parse COFF time date stamp", *offset));
            },
        };
        let pointer_to_symbol_table = match reader::read_u32(bytes, offset) {
            Some(v) => v,
            None => {
                return Err(malformed_at("cannot parse COFF pointer to symbol table", *offset));
            },
        };
        let number_of_symbol_table = match reader::read_u32(bytes, offset) {
            Some(v) => v,
            None => {
                return Err(malformed_at("cannot parse COFF number of symbol", *offset));
            },
        };
        let size_of_optional_header = match reader::read_u16(bytes, offset) {
            Some(v) => v,
            None => {
                return Err(malformed_at("cannot parse COFF size of optional header", *offset));
            },
        };
        let characteristics = match reader::read_u16(bytes, offset) {
            Some(v) => v,
            None => {
                return Err(malformed_at("cannot parse COFF characteristics", *offset));
            },
        };
        Ok(
            CoffHeader {
                signature,
                machine,
                number_of_sections,
                time_date_stamp,
                pointer_to_symbol_table,
                number_of_symbol_table,
                size_of_optional_header,
                characteristics,
            },
        )
    }
}

/// The optional header that follows the COFF header, carried as the raw
/// bytes the COFF header declares for it.  Interpreting its fields is outside
/// this crate's scope: this crate only locates the region and hands it on.
#[derive(Debug, PartialEq, Clone)]
pub struct OptionalHeader {
    pub data: Vec<u8>,
}

impl OptionalHeader {
    /// Copy the `size` bytes of the optional header that start at `offset`
    /// out of the buffer.
    pub fn parse(bytes: &[u8], offset: usize, size: usize) -> (r: Result<Self, Error>)
        ensures
            match r {
                Ok(o) => {
                    &&& offset + size <= bytes@.len()
                    &&& o.data@ == bytes@.subrange(offset as int, offset + size)
                },
                Err(e) => {
                    &&& offset + size > bytes@.len()
                    &&& msg_of(e) == malformed_msg("cannot parse optional header"@, offset as nat)
                },
            },
    {
        if offset > bytes.len() || size > bytes.len() - offset {
            Err(malformed_at("cannot parse optional header", offset))
        } else {
            let region = slice_subrange(bytes, offset, offset + size);
            Ok(OptionalHeader { data: slice_to_vec(region) })
        }
    }
}

#[derive(Debug, PartialEq, Clone)]
pub struct Header {
    pub dos_header: DosHeader,
    pub coff_header: CoffHeader,
    pub optional_header: Option<OptionalHeader>,
}

/// The PE header pointer held at offset 0x3c of `b`.
pub open spec fn spec_pe_pointer(b: Seq<u8>) -> int {
    le32(b, PE_POINTER_OFFSET as int)
}

/// The size of the optional header, as the COFF header at `b`'s PE header
/// pointer declares it.
pub open spec fn spec_opt_size(b: Seq<u8>) -> int {
    le16(b, spec_pe_pointer(b) + 20)
}

/// Whether a whole header can be parsed out of `b`: the DOS header fits, the
/// COFF header fits at the PE header pointer, and, if an optional header is
/// declared, its bytes fit too.
pub open spec fn header_ok(b: Seq<u8>) -> bool {
    &&& dos_ok(b)
    &&& coff_ok(b, spec_pe_pointer(b))
    &&& (spec_opt_size(b) == 0 || spec_pe_pointer(b) + SIZEOF_COFF_HEADER + spec_opt_size(b)
        <= b.len())
}

/// What a successfully parsed header holds: the DOS fields, the COFF fields
/// at the PE header pointer, and the optional header's bytes exactly when the
/// COFF header declares a nonzero size for it.
pub open spec fn header_matches(b: Seq<u8>, h: Header) -> bool {
    &&& dos_matches(b, h.dos_header)
    &&& coff_matches(b, spec_pe_pointer(b), h.coff_header)
    &&& match h.optional_header {
        Some(o) => spec_opt_size(b) > 0 && o.data@ == b.subrange(
            spec_pe_pointer(b) + SIZEOF_COFF_HEADER,
            spec_pe_pointer(b) + SIZEOF_COFF_HEADER + spec_opt_size(b),
        ),
        None => spec_opt_size(b) == 0,
    }
}

/// The message of the error a failed header parse returns: the error of the
/// first stage that fails, propagated unchanged.
pub open spec fn header_err_msg(b: Seq<u8>) -> Seq<char>
    recommends
        !header_ok(b),
{
    if !dos_ok(b) {
        dos_err_msg(b)
    } else if !coff_ok(b, spec_pe_pointer(b)) {
        coff_err_msg(b, spec_pe_pointer(b))
    } else {
        malformed_msg(
            "cannot parse optional header"@,
            (spec_pe_pointer(b) + SIZEOF_COFF_HEADER) as nat,
        )
    }
}

impl Header {
    /// Parse the DOS header, the COFF header at the DOS header's PE header
    /// pointer, and, if the COFF header declares one, the optional header
    /// that follows.  Any stage's failure propagates unchanged.
    pub fn parse(bytes: &[u8]) -> (r: Result<Self, Error>)
        ensures
            match r {
                Ok(h) => header_ok(bytes@) && header_matches(bytes@, h),
                Err(e) => !header_ok(bytes@) && msg_of(e) == header_err_msg(bytes@),
            },
    {
        let dos_header = match DosHeader::parse(bytes) {
            Ok(h) => h,
            Err(e) => {
                return Err(e);
            },
        };
        let mut offset: usize = dos_header.pe_pointer as usize;
        let coff_header = match CoffHeader::parse(bytes, &mut offset) {
            Ok(c) => c,
            Err(e) => {
                return Err(e);
            },
        };
        let optional_header = if coff_header.size_of_optional_header > 0 {
            let size = coff_header.size_of_optional_header as usize;
            match OptionalHeader::parse(bytes, offset, size) {
                Ok(o) => Some(o),
                Err(e) => {
                    return Err(e);
                },
            }
        } else {
            None
        };
        Ok(Header { dos_header, coff_header, optional_header })
    }
}

/// After a successful parse of a buffer that carries the expected magic
/// numbers — `0x5a4d` at offset 0 and `0x00004550` at the PE header pointer —
/// the parsed signatures are exactly those magic values.
pub proof fn lemma_magic_signatures(b: Seq<u8>, h: Header)
    requires
        header_matches(b, h),
        le16(b, 0) == DOS_MAGIC,
        le32(b, spec_pe_pointer(b)) == COFF_MAGIC,
    ensures
        h.dos_header.signature == DOS_MAGIC,
        h.coff_header.signature == COFF_MAGIC,
{
}

/// Parsing is deterministic: any two headers parsed out of the same buffer
/// agree on every field, bit for bit.
pub proof fn lemma_parse_deterministic(b: Seq<u8>, h1: Header, h2: Header)
    requires
        header_matches(b, h1),
        header_matches(b, h2),
    ensures
        h1.dos_header == h2.dos_header,
        h1.coff_header == h2.coff_header,
        match (h1.optional_header, h2.optional_header) {
            (Some(o1), Some(o2)) => o1.data@ == o2.data@,
            (None, None) => true,
            _ => false,
        },
{
}

} // verus!
