//! Reading the first image out of an ICO file.

use vstd::prelude::*;

verus! {

/// The little-endian value of two bytes.
pub open spec fn le_u16(b0: u8, b1: u8) -> int {
    b0 + 256 * b1
}

/// The little-endian value of four bytes.
pub open spec fn le_u32(b0: u8, b1: u8, b2: u8, b3: u8) -> int {
    b0 + 256 * b1 + 65536 * b2 + 16777216 * b3
}

/// The 16-bit little-endian value at `offset`, if two bytes are there.
pub open spec fn spec_read_u16(data: Seq<u8>, offset: int) -> Option<u16> {
    if 0 <= offset && offset + 2 <= data.len() {
        Some(le_u16(data[offset], data[offset + 1]) as u16)
    } else {
        None
    }
}

/// The 32-bit little-endian value at `offset`, if four bytes are there.
pub open spec fn spec_read_u32(data: Seq<u8>, offset: int) -> Option<u32> {
    if 0 <= offset && offset + 4 <= data.len() {
        Some(le_u32(data[offset], data[offset + 1], data[offset + 2], data[offset + 3]) as u32)
    } else {
        None
    }
}

/// The file starts with an ICO directory: at least 22 bytes, a zero reserved
/// word, type 1 (icon) and at least one image.
pub open spec fn ico_header_valid(data: Seq<u8>) -> bool {
    &&& data.len() >= 22
    &&& spec_read_u16(data, 0) == Some(0u16)
    &&& spec_read_u16(data, 2) == Some(1u16)
    &&& spec_read_u16(data, 4) != Some(0u16)
}

/// Size in bytes of the first image, from its directory entry.
pub open spec fn ico_first_size(data: Seq<u8>) -> int {
    le_u32(data[14], data[15], data[16], data[17])
}

/// Offset of the first image, from its directory entry.
pub open spec fn ico_first_offset(data: Seq<u8>) -> int {
    le_u32(data[18], data[19], data[20], data[21])
}

pub open spec fn invalid_icon_message() -> Seq<char> {
    "托盘图标不是有效的 ICO 文件"@
}

pub open spec fn icon_size_overflow_message() -> Seq<char> {
    "托盘图标尺寸溢出"@
}

pub open spec fn icon_truncated_message() -> Seq<char> {
    "托盘图标数据不完整"@
}

/// What reading the first image gives: the bytes of the image or the message
/// of the error.
pub open spec fn spec_first_image(data: Seq<u8>) -> Result<Seq<u8>, Seq<char>> {
    if !ico_header_valid(data) {
        Err(invalid_icon_message())
    } else if ico_first_offset(data) + ico_first_size(data) > usize::MAX {
        Err(icon_size_overflow_message())
    } else if ico_first_offset(data) + ico_first_size(data) > data.len() {
        Err(icon_truncated_message())
    } else {
        Ok(data.subrange(ico_first_offset(data), ico_first_offset(data) + ico_first_size(data)))
    }
}

/// Reads the 16-bit little-endian value at `offset`.
pub fn read_u16(data: &[u8], offset: usize) -> (r: Option<u16>)
    requires
        offset + 2 <= usize::MAX,
    ensures
        r == spec_read_u16(data@, offset as int),
{
    if offset + 2 > data.len() {
        return None;
    }
    let low = data[offset] as u16;
    let high = data[offset + 1] as u16;
    Some(low + high * 256)
}

/// Reads the 32-bit little-endian value at `offset`.
pub fn read_u32(data: &[u8], offset: usize) -> (r: Option<u32>)
    requires
        offset + 4 <= usize::MAX,
    ensures
        r == spec_read_u32(data@, offset as int),
{
    if offset + 4 > data.len() {
        return None;
    }
    let b0 = data[offset] as u32;
    let b1 = data[offset + 1] as u32;
    let b2 = data[offset + 2] as u32;
    let b3 = data[offset + 3] as u32;
    Some(b0 + b1 * 256 + b2 * 65536 + b3 * 16777216)
}

/// The bytes of the first image of an ICO file, located by the first entry of
/// its directory.
pub fn first_image(data: &[u8]) -> (r: Result<&[u8], String>)
    ensures
        match r {
            Ok(image) => spec_first_image(data@) == Ok::<Seq<u8>, Seq<char>>(image@),
            Err(message) => spec_first_image(data@) == Err::<Seq<u8>, Seq<char>>(message@),
        },
{
    let reserved = read_u16(data, 0);
    let kind = read_u16(data, 2);
    let count = read_u16(data, 4);
    let count_is_zero = match count {
        Some(value) => value == 0,
        None => true,
    };
    if data.len() < 22 || reserved != Some(0u16) || kind != Some(1u16) || count_is_zero {
        return Err(String::from_str("托盘图标不是有效的 ICO 文件"));
    }
    let size = match read_u32(data, 14) {
        Some(value) => value as usize,
        None => return Err(String::from_str("托盘图标目录损坏")),
    };
    let offset = match read_u32(data, 18) {
        Some(value) => value as usize,
        None => return Err(String::from_str("托盘图标目录损坏")),
    };
    let end = match offset.checked_add(size) {
        Some(end) => end,
        None => return Err(String::from_str("托盘图标尺寸溢出")),
    };
    if end > data.len() {
        return Err(String::from_str("托盘图标数据不完整"));
    }
    Ok(&data[offset..end])
}

} // verus!
