use vstd::prelude::*;

verus! {

/// Whether a read of `width` bytes starting at `off` stays inside `b`.
pub open spec fn in_bounds(b: Seq<u8>, off: int, width: int) -> bool {
    0 <= off && off + width <= b.len()
}

/// The two bytes at `off`, read as one little-endian integer.
pub open spec fn le16(b: Seq<u8>, off: int) -> int
    recommends
        in_bounds(b, off, 2),
{
    (b[off] as int) + 0x100 * (b[off + 1] as int)
}

/// The four bytes at `off`, read as one little-endian integer.
pub open spec fn le32(b: Seq<u8>, off: int) -> int
    recommends
        in_bounds(b, off, 4),
{
    (b[off] as int) + 0x100 * (b[off + 1] as int) + 0x10000 * (b[off + 2] as int) + 0x1000000 * (
    b[off + 3] as int)
}

/// Read a 16-bit little-endian integer at a fixed offset; the buffer is left
/// untouched.
pub fn read_u16_at(bytes: &[u8], offset: usize) -> (r: Option<u16>)
    ensures
        match r {
            Some(v) => in_bounds(bytes@, offset as int, 2) && v as int == le16(
                bytes@,
                offset as int,
            ),
            None => !in_bounds(bytes@, offset as int, 2),
        },
{
    if bytes.len() < 2 || offset > bytes.len() - 2 {
        None
    } else {
        let b0 = bytes[offset];
        let b1 = bytes[offset + 1];
        Some(b0 as u16 + (b1 as u16) * 0x100)
    }
}

/// Read a 32-bit little-endian integer at a fixed offset; the buffer is left
/// untouched.
pub fn read_u32_at(bytes: &[u8], offset: usize) -> (r: Option<u32>)
    ensures
        match r {
            Some(v) => in_bounds(bytes@, offset as int, 4) && v as int == le32(
                bytes@,
                offset as int,
            ),
            None => !in_bounds(bytes@, offset as int, 4),
        },
{
    if bytes.len() < 4 || offset > bytes.len() - 4 {
        None
    } else {
        let b0 = bytes[offset];
        let b1 = bytes[offset + 1];
        let b2 = bytes[offset + 2];
        let b3 = bytes[offset + 3];
        Some(b0 as u32 + (b1 as u32) * 0x100 + (b2 as u32) * 0x10000 + (b3 as u32) * 0x1000000)
    }
}

/// Read a 16-bit little-endian integer at the cursor, advancing the cursor by
/// two bytes on success and leaving it in place on failure.
pub fn read_u16(bytes: &[u8], offset: &mut usize) -> (r: Option<u16>)
    ensures
        match r {
            Some(v) => in_bounds(bytes@, *old(offset) as int, 2) && v as int == le16(
                bytes@,
                *old(offset) as int,
            ) && *final(offset) == *old(offset) + 2,
            None => !in_bounds(bytes@, *old(offset) as int, 2) && *final(offset) == *old(offset),
        },
{
    let start: usize = *offset;
    if bytes.len() < 2 || start > bytes.len() - 2 {
        None
    } else {
        let b0 = bytes[start];
        let b1 = bytes[start + 1];
        *offset = start + 2;
        Some(b0 as u16 + (b1 as u16) * 0x100)
    }
}

/// Read a 32-bit little-endian integer at the cursor, advancing the cursor by
/// four bytes on success and leaving it in place on failure.
pub fn read_u32(bytes: &[u8], offset: &mut usize) -> (r: Option<u32>)
    ensures
        match r {
            Some(v) => in_bounds(bytes@, *old(offset) as int, 4) && v as int == le32(
                bytes@,
                *old(offset) as int,
            ) && *final(offset) == *old(offset) + 4,
            None => !in_bounds(bytes@, *old(offset) as int, 4) && *final(offset) == *old(offset),
        },
{
    let start: usize = *offset;
    if bytes.len() < 4 || start > bytes.len() - 4 {
        None
    } else {
        let b0 = bytes[start];
        let b1 = bytes[start + 1];
        let b2 = bytes[start + 2];
        let b3 = bytes[start + 3];
        *offset = start + 4;
        Some(b0 as u32 + (b1 as u32) * 0x100 + (b2 as u32) * 0x10000 + (b3 as u32) * 0x1000000)
    }
}

} // verus!
