//! Reading the headers of a module image loaded in memory, given as its bytes
//! from the base address: where the Start button's click handler is in the
//! executable sections, and which import slot holds a function imported from
//! `user32.dll`. A header or section outside the bytes counts as not found.

use crate::icon::{spec_read_u16, spec_read_u32, le_u32};
use crate::shell::{pattern_matches, spec_pattern_matches};
use vstd::slice::slice_subrange;
use vstd::prelude::*;

verus! {

pub const IMAGE_DOS_SIGNATURE: u16 = 0x5A4D;
pub const IMAGE_NT_SIGNATURE: u32 = 0x0000_4550;
pub const IMAGE_SCN_MEM_EXECUTE: u32 = 0x2000_0000;
pub const IMAGE_NT_OPTIONAL_HDR64_MAGIC: u16 = 0x020B;
pub const SECTION_HEADER_SIZE: u64 = 40;
pub const PATTERN_LENGTH: u64 = 48;
pub const IMPORT_DESCRIPTOR_SIZE: u64 = 20;

/// The 16-bit value at `offset`, where two bytes are there.
fn read16(data: &[u8], offset: u64) -> (r: Option<u16>)
    ensures
        r == spec_read_u16(data@, offset as int),
{
    if offset > data.len() as u64 || data.len() as u64 - offset < 2 {
        return None;
    }
    let at = offset as usize;
    Some(data[at] as u16 + data[at + 1] as u16 * 256)
}

/// The 32-bit value at `offset`, where four bytes are there.
fn read32(data: &[u8], offset: u64) -> (r: Option<u32>)
    ensures
        r == spec_read_u32(data@, offset as int),
{
    if offset > data.len() as u64 || data.len() as u64 - offset < 4 {
        return None;
    }
    let at = offset as usize;
    Some(data[at] as u32 + data[at + 1] as u32 * 256 + data[at + 2] as u32 * 65536 + data[at + 3] as u32 * 16777216)
}

/// The image starts with the DOS and NT signatures; the NT headers are at
/// the offset stored at `0x3C`.
pub open spec fn nt_offset(data: Seq<u8>) -> Option<int> {
    if spec_read_u16(data, 0) == Some(IMAGE_DOS_SIGNATURE) && spec_read_u32(data, 0x3C) is Some {
        let nt = spec_read_u32(data, 0x3C)->0 as int;
        if spec_read_u32(data, nt) == Some(IMAGE_NT_SIGNATURE) {
            Some(nt)
        } else {
            None
        }
    } else {
        None
    }
}

/// The number of sections and where their headers start.
pub open spec fn section_table(data: Seq<u8>) -> Option<(int, int)> {
    match nt_offset(data) {
        Some(nt) => if spec_read_u16(data, nt + 6) is Some && spec_read_u16(data, nt + 20) is Some {
            Some((spec_read_u16(data, nt + 6)->0 as int, nt + 24 + spec_read_u16(data, nt + 20)->0))
        } else {
            None
        },
        None => None,
    }
}

/// Section `k` of the table at `start`: its characteristics, size and address,
/// where its header is within the bytes.
pub open spec fn section(data: Seq<u8>, start: int, k: int) -> Option<(u32, int, int)> {
    let at = start + SECTION_HEADER_SIZE * k;
    if spec_read_u32(data, at + 36) is Some && spec_read_u32(data, at + 8) is Some && spec_read_u32(data, at + 12) is Some {
        Some((spec_read_u32(data, at + 36)->0, spec_read_u32(data, at + 8)->0 as int, spec_read_u32(data, at + 12)->0 as int))
    } else {
        None
    }
}

/// The address of section `k`, where its header can be read.
pub open spec fn section_address(data: Seq<u8>, start: int, k: int) -> int {
    match section(data, start, k) {
        Some((characteristics, size, address)) => address,
        None => 0,
    }
}

pub open spec fn executable(characteristics: u32) -> bool {
    characteristics & IMAGE_SCN_MEM_EXECUTE != 0
}

/// Every section of the table has its header within the bytes, and every
/// executable one lies within the bytes too.
pub open spec fn sections_readable(data: Seq<u8>, start: int, count: int) -> bool {
    forall|k: int| 0 <= k < count ==> match #[trigger] section(data, start, k) {
        Some((characteristics, size, address)) => executable(characteristics) ==> address + size <= data.len(),
        None => false,
    }
}

/// No executable section is shorter than the pattern.
pub open spec fn no_short_code_section(data: Seq<u8>) -> bool {
    match section_table(data) {
        Some((count, start)) => forall|k: int|
            0 <= k < count ==> match #[trigger] section(data, start, k) {
                Some((characteristics, size, address)) => executable(characteristics) ==> size >= PATTERN_LENGTH,
                None => true,
            },
        None => true,
    }
}

/// The pattern starts at `offset` of executable section `k`.
pub open spec fn click_match(data: Seq<u8>, start: int, k: int, offset: int) -> bool {
    match section(data, start, k) {
        Some((characteristics, size, address)) => {
            &&& executable(characteristics)
            &&& 0 <= offset <= size - PATTERN_LENGTH
            &&& address + size <= data.len()
            &&& spec_pattern_matches(data.subrange(address + offset, address + offset + PATTERN_LENGTH))
        },
        None => false,
    }
}

pub open spec fn is_click_match(data: Seq<u8>, start: int, count: int, k: int, offset: int) -> bool {
    0 <= k < count && click_match(data, start, k, offset)
}

/// The image offset of the click handler: the one place, over all executable
/// sections, where the pattern starts; none where the headers cannot be read,
/// the pattern is nowhere, or it is in more than one place.
pub open spec fn spec_click_handler(data: Seq<u8>, found: Option<u64>) -> bool {
    match section_table(data) {
        Some((count, start)) => if sections_readable(data, start, count) {
            match found {
                Some(position) => exists|k: int, o: int|
                    #[trigger] is_click_match(data, start, count, k, o) && position == section_address(data, start, k) + o
                        && forall|k2: int, o2: int| #[trigger] is_click_match(data, start, count, k2, o2) ==> k2 == k && o2 == o,
                None => forall|k: int, o: int| !#[trigger] is_click_match(data, start, count, k, o) || exists|k2: int, o2: int|
                    #[trigger] is_click_match(data, start, count, k2, o2) && (k2 != k || o2 != o),
            }
        } else {
            found is None
        },
        None => found is None,
    }
}

/// A processed pair comes before `(k, o)` in section, then offset order.
pub open spec fn before(k1: int, o1: int, k: int, o: int) -> bool {
    k1 < k || (k1 == k && o1 < o)
}

/// The matches among the pairs before `(k, o)` are exactly `found`.
pub open spec fn scanned(data: Seq<u8>, start: int, count: int, k: int, o: int, found: Option<(int, int)>) -> bool {
    match found {
        None => forall|k1: int, o1: int| before(k1, o1, k, o) ==> !#[trigger] is_click_match(data, start, count, k1, o1),
        Some((fk, fo)) => {
            &&& before(fk, fo, k, o)
            &&& is_click_match(data, start, count, fk, fo)
            &&& forall|k1: int, o1: int| before(k1, o1, k, o) && #[trigger] is_click_match(data, start, count, k1, o1) ==> k1 == fk && o1 == fo
        },
    }
}

proof fn lemma_two_matches(data: Seq<u8>, s: int, c: int, ka: int, oa: int, kb: int, ob: int)
    requires
        is_click_match(data, s, c, ka, oa),
        is_click_match(data, s, c, kb, ob),
        ka != kb || oa != ob,
    ensures
        forall|k: int, o: int| !#[trigger] is_click_match(data, s, c, k, o) || exists|k2: int, o2: int|
            #[trigger] is_click_match(data, s, c, k2, o2) && (k2 != k || o2 != o),
{
    assert forall|k: int, o: int| !#[trigger] is_click_match(data, s, c, k, o) || exists|k2: int, o2: int|
        #[trigger] is_click_match(data, s, c, k2, o2) && (k2 != k || o2 != o) by {
        if is_click_match(data, s, c, k, o) {
            if k == ka && o == oa {
                assert(is_click_match(data, s, c, kb, ob));
            } else {
                assert(is_click_match(data, s, c, ka, oa));
            }
        }
    }
}

/// Scans executable section `k`, lying within the bytes, for the pattern,
/// after the sections before it gave `found`: the matches up to the end of the
/// section, or `None` where a second match turned up.
fn scan_section(
    data: &[u8],
    Ghost(s): Ghost<int>,
    Ghost(c): Ghost<int>,
    k: u64,
    size: u64,
    address: u64,
    found: Option<(u64, u64)>,
) -> (r: Option<Option<(u64, u64)>>)
    requires
        0 <= k < c,
        section(data@, s, k as int) matches Some((characteristics, sz, ad)) && executable(characteristics) && sz == size
            && ad == address,
        address + size <= data@.len(),
        size >= PATTERN_LENGTH,
        scanned(data@, s, c, k as int, 0, match found {
            Some((a, b)) => Some((a as int, b as int)),
            None => None,
        }),
    ensures
        match r {
            Some(next) => scanned(data@, s, c, k as int + 1, 0, match next {
                Some((a, b)) => Some((a as int, b as int)),
                None => None,
            }),
            None => forall|k1: int, o1: int| !#[trigger] is_click_match(data@, s, c, k1, o1) || exists|k2: int, o2: int|
                #[trigger] is_click_match(data@, s, c, k2, o2) && (k2 != k1 || o2 != o1),
        },
{
    let mut found = found;
    let mut offset: u64 = 0;
    assert(data@.len() == data.len());
    while offset + PATTERN_LENGTH <= size
        invariant
            0 <= k < c,
            section(data@, s, k as int) matches Some((characteristics, sz, ad)) && executable(characteristics) && sz == size
                && ad == address,
            address + size <= data@.len(),
            data@.len() == data.len(),
            size >= PATTERN_LENGTH,
            offset <= size,
            scanned(data@, s, c, k as int, offset as int, match found {
                Some((a, b)) => Some((a as int, b as int)),
                None => None,
            }),
        decreases size - offset,
    {
        let at = (address + offset) as usize;
        let window = slice_subrange(data, at, at + 48);
        let hit = pattern_matches(window);
        proof {
            assert(window@ == data@.subrange(address + offset, address + offset + PATTERN_LENGTH));
            assert(hit == is_click_match(data@, s, c, k as int, offset as int));
        }
        if hit {
            match found {
                Some((fk, fo)) => {
                    proof {
                        lemma_two_matches(data@, s, c, fk as int, fo as int, k as int, offset as int);
                    }
                    return None;
                },
                None => {
                    found = Some((k, offset));
                },
            }
        }
        offset += 1;
    }
    proof {
        assert forall|k1: int, o1: int| before(k1, o1, k as int + 1, 0) && #[trigger] is_click_match(data@, s, c, k1, o1)
            implies before(k1, o1, k as int, offset as int) by {}
    }
    Some(found)
}

/// Whether every executable section whose header can be read is at least as
/// long as the click handler pattern, as the search for it needs.
pub fn code_sections_hold_pattern(data: &[u8]) -> (r: bool)
    ensures
        r == no_short_code_section(data@),
{
    if read16(data, 0) != Some(IMAGE_DOS_SIGNATURE) {
        return true;
    }
    let nt = match read32(data, 0x3C) {
        Some(nt) => nt as u64,
        None => return true,
    };
    if read32(data, nt) != Some(IMAGE_NT_SIGNATURE) {
        return true;
    }
    let count = match read16(data, nt + 6) {
        Some(count) => count as u64,
        None => return true,
    };
    let optional_size = match read16(data, nt + 20) {
        Some(size) => size as u64,
        None => return true,
    };
    let start = nt + 24 + optional_size;
    let ghost s = start as int;
    let ghost c = count as int;
    assert(section_table(data@) == Some((c, s)));
    let mut k: u64 = 0;
    while k < count
        invariant
            0 <= k <= count <= 0xFFFF,
            start == s,
            count == c,
            s <= 4295032854,
            section_table(data@) == Some((c, s)),
            forall|j: int| 0 <= j < k ==> match #[trigger] section(data@, s, j) {
                Some((characteristics, size, address)) => executable(characteristics) ==> size >= PATTERN_LENGTH,
                None => true,
            },
        decreases count - k,
    {
        let header = start + k * SECTION_HEADER_SIZE;
        let characteristics = read32(data, header + 36);
        let size = read32(data, header + 8);
        let address = read32(data, header + 12);
        match (characteristics, size, address) {
            (Some(characteristics), Some(size), Some(address)) => {
                assert(section(data@, s, k as int) == Some((characteristics, size as int, address as int)));
                if characteristics & IMAGE_SCN_MEM_EXECUTE != 0 && (size as u64) < PATTERN_LENGTH {
                    return false;
                }
            },
            _ => {
                assert(section(data@, s, k as int) is None);
            },
        }
        k += 1;
    }
    true
}

/// The offset, from the image base, of the Start button's click handler.
pub fn find_click_handler(data: &[u8]) -> (r: Option<u64>)
    requires
        no_short_code_section(data@),
    ensures
        spec_click_handler(data@, r),
{
    if read16(data, 0) != Some(IMAGE_DOS_SIGNATURE) {
        return None;
    }
    let nt = match read32(data, 0x3C) {
        Some(nt) => nt as u64,
        None => return None,
    };
    if read32(data, nt) != Some(IMAGE_NT_SIGNATURE) {
        return None;
    }
    let count = match read16(data, nt + 6) {
        Some(count) => count as u64,
        None => return None,
    };
    let optional_size = match read16(data, nt + 20) {
        Some(size) => size as u64,
        None => return None,
    };
    let start = nt + 24 + optional_size;
    let ghost s = start as int;
    let ghost c = count as int;
    assert(section_table(data@) == Some((c, s)));
    let mut found: Option<(u64, u64)> = None;
    let mut k: u64 = 0;
    while k < count
        invariant
            0 <= k <= count <= 0xFFFF,
            start == s,
            count == c,
            s <= 4295032854,
            section_table(data@) == Some((c, s)),
            no_short_code_section(data@),
            forall|j: int| 0 <= j < k ==> match #[trigger] section(data@, s, j) {
                Some((characteristics, size, address)) => executable(characteristics) ==> address + size <= data@.len(),
                None => false,
            },
            scanned(data@, s, c, k as int, 0, match found {
                Some((a, b)) => Some((a as int, b as int)),
                None => None,
            }),
        decreases count - k,
    {
        let header = start + k * SECTION_HEADER_SIZE;
        let characteristics = read32(data, header + 36);
        let size = read32(data, header + 8);
        let address = read32(data, header + 12);
        let (characteristics, size, address) = match (characteristics, size, address) {
            (Some(a), Some(b), Some(c)) => (a, b as u64, c as u64),
            _ => {
                proof {
                    assert(section(data@, s, k as int) is None);
                }
                return None;
            },
        };
        assert(section(data@, s, k as int) == Some((characteristics, size as int, address as int)));
        if characteristics & IMAGE_SCN_MEM_EXECUTE != 0 {
            if address + size > data.len() as u64 {
                return None;
            }
            assert(size >= PATTERN_LENGTH) by {
                assert(match section(data@, s, k as int) {
                    Some((ch, sz, ad)) => executable(ch) ==> sz >= PATTERN_LENGTH,
                    None => true,
                });
            }
            match scan_section(data, Ghost(s), Ghost(c), k, size, address, found) {
                Some(next) => {
                    found = next;
                },
                None => return None,
            }
        } else {
            proof {
                assert forall|k1: int, o1: int| before(k1, o1, k as int + 1, 0) && #[trigger] is_click_match(data@, s, c, k1, o1)
                    implies before(k1, o1, k as int, 0) by {}
            }
        }
        k += 1;
    }
    match found {
        Some((fk, fo)) => {
            let address = match read32(data, start + fk * SECTION_HEADER_SIZE + 12) {
                Some(address) => address as u64,
                None => return None,
            };
            proof {
                assert forall|k2: int, o2: int| #[trigger] is_click_match(data@, s, c, k2, o2) implies k2 == fk && o2 == fo by {
                    assert(before(k2, o2, c, 0));
                }
            }
            Some(address + fo)
        },
        None => {
            proof {
                assert forall|k2: int, o2: int| !#[trigger] is_click_match(data@, s, c, k2, o2) by {
                    if is_click_match(data@, s, c, k2, o2) {
                        assert(before(k2, o2, c, 0));
                    }
                }
            }
            None
        },
    }
}

/// The 64-bit little-endian value at `offset`, if eight bytes are there.
pub open spec fn spec_read_u64(data: Seq<u8>, offset: int) -> Option<u64> {
    if 0 <= offset && offset + 8 <= data.len() {
        Some(
            (le_u32(data[offset], data[offset + 1], data[offset + 2], data[offset + 3]) + 0x1_0000_0000 * le_u32(
                data[offset + 4],
                data[offset + 5],
                data[offset + 6],
                data[offset + 7],
            )) as u64,
        )
    } else {
        None
    }
}

fn read64(data: &[u8], offset: u64) -> (r: Option<u64>)
    ensures
        r == spec_read_u64(data@, offset as int),
{
    let low = match read32(data, offset) {
        Some(low) => low as u64,
        None => return None,
    };
    assert(data@.len() == data.len());
    if offset > u64::MAX - 4 {
        return None;
    }
    let high = match read32(data, offset + 4) {
        Some(high) => high as u64,
        None => return None,
    };
    Some(low + high * 0x1_0000_0000)
}

/// The headers of a 64-bit image: its size, and the address and size of its
/// import directory.
pub open spec fn import_directory(data: Seq<u8>) -> Option<(int, int, int)> {
    match nt_offset(data) {
        Some(nt) => {
            let optional = nt + 24;
            let directory = optional + 112 + 8;
            if spec_read_u16(data, optional) == Some(IMAGE_NT_OPTIONAL_HDR64_MAGIC) && spec_read_u32(data, optional + 56)
                is Some && spec_read_u32(data, directory) is Some && spec_read_u32(data, directory + 4) is Some {
                Some(
                    (
                        spec_read_u32(data, optional + 56)->0 as int,
                        spec_read_u32(data, directory)->0 as int,
                        spec_read_u32(data, directory + 4)->0 as int,
                    ),
                )
            } else {
                None
            }
        },
        None => None,
    }
}

/// An ASCII letter's lower-case form; any other byte unchanged.
pub open spec fn lower_byte(b: u8) -> u8 {
    if 0x41 <= b <= 0x5A {
        (b + 32) as u8
    } else {
        b
    }
}

/// The bytes of `user32.dll`.
pub open spec fn user32_name() -> Seq<u8> {
    seq![0x75u8, 0x73, 0x65, 0x72, 0x33, 0x32, 0x2E, 0x64, 0x6C, 0x6C]
}

/// The name at `name` in the image is `user32.dll`, in any case, followed by
/// its terminating zero, all within the image.
pub open spec fn names_user32(data: Seq<u8>, image_size: int, name: int) -> bool {
    &&& 0 <= name
    &&& name + 11 <= image_size
    &&& name + 11 <= data.len()
    &&& data[name + 10] == 0
    &&& forall|i: int| 0 <= i < 10 ==> lower_byte(#[trigger] data[name + i]) == user32_name()[i]
}

/// The first slot from `slot` on, in steps of eight bytes within the image
/// and up to the first empty or unreadable slot, that holds `original`.
pub open spec fn slot_scan(data: Seq<u8>, slot: int, image_size: int, original: u64) -> Option<int>
    decreases image_size - slot,
{
    if slot < 0 || slot + 8 > image_size {
        None
    } else {
        match spec_read_u64(data, slot) {
            Some(value) => if value == 0 {
                None
            } else if value == original {
                Some(slot)
            } else {
                slot_scan(data, slot + 8, image_size, original)
            },
            None => None,
        }
    }
}

/// The first import slot holding `original` among the descriptors from `index`
/// on: the scan stops at the empty descriptor or an unreadable one, and skips
/// descriptors that are not of `user32.dll` or point outside the image.
pub open spec fn descriptor_scan(
    data: Seq<u8>,
    directory: int,
    index: int,
    count: int,
    image_size: int,
    original: u64,
) -> Option<int>
    decreases count - index,
{
    if index < 0 || index >= count {
        None
    } else {
        let at = directory + IMPORT_DESCRIPTOR_SIZE * index;
        match (spec_read_u32(data, at + 12), spec_read_u32(data, at + 16)) {
            (Some(name), Some(thunk)) => if name == 0 && thunk == 0 {
                None
            } else if name >= image_size || thunk >= image_size || !names_user32(data, image_size, name as int) {
                descriptor_scan(data, directory, index + 1, count, image_size, original)
            } else {
                match slot_scan(data, thunk as int, image_size, original) {
                    Some(slot) => Some(slot),
                    None => descriptor_scan(data, directory, index + 1, count, image_size, original),
                }
            },
            _ => None,
        }
    }
}

/// The import slot of a 64-bit image that holds the address `original` of a
/// function of `user32.dll`: the first in descriptor order, then slot order.
pub open spec fn spec_import_slot(data: Seq<u8>, original: u64) -> Option<int> {
    match import_directory(data) {
        Some((image_size, directory, size)) => if directory == 0 || directory >= image_size {
            None
        } else {
            descriptor_scan(data, directory, 0, size / IMPORT_DESCRIPTOR_SIZE as int, image_size, original)
        },
        None => None,
    }
}

fn names_user32_at(data: &[u8], image_size: u64, name: u64) -> (r: bool)
    ensures
        r == names_user32(data@, image_size as int, name as int),
{
    if name > u64::MAX - 11 || name + 11 > image_size || name + 11 > data.len() as u64 {
        return false;
    }
    let at = name as usize;
    assert(data@.len() == data.len());
    if data[at + 10] != 0 {
        return false;
    }
    let expected: [u8; 10] = [0x75, 0x73, 0x65, 0x72, 0x33, 0x32, 0x2E, 0x64, 0x6C, 0x6C];
    assert(expected@ =~= user32_name());
    let mut i: usize = 0;
    while i < 10
        invariant
            0 <= i <= 10,
            at + 11 <= data@.len(),
            data@.len() == data.len(),
            at == name,
            expected@ == user32_name(),
            forall|j: int| 0 <= j < i ==> lower_byte(#[trigger] data@[at + j]) == user32_name()[j],
        decreases 10 - i,
    {
        let b = data[at + i];
        let lowered = if 0x41 <= b && b <= 0x5A { b + 32 } else { b };
        if lowered != expected[i] {
            return false;
        }
        i += 1;
    }
    true
}

fn find_slot(data: &[u8], first: u64, image_size: u64, original: u64) -> (r: Option<u64>)
    requires
        image_size <= u32::MAX,
    ensures
        r matches Some(slot) ==> slot_scan(data@, first as int, image_size as int, original) == Some(slot as int),
        r is None ==> slot_scan(data@, first as int, image_size as int, original) is None,
{
    let mut slot = first;
    while slot <= image_size && image_size - slot >= 8
        invariant
            image_size <= u32::MAX,
            slot_scan(data@, first as int, image_size as int, original) == slot_scan(data@, slot as int, image_size as int, original),
        decreases image_size - slot,
    {
        let value = match read64(data, slot) {
            Some(value) => value,
            None => return None,
        };
        if value == 0 {
            return None;
        }
        if value == original {
            return Some(slot);
        }
        slot = slot + 8;
    }
    None
}

/// The offset of the import slot of `user32.dll` that holds `original`, in the
/// bytes `data` of a loaded 64-bit image.
pub fn find_import_slot(data: &[u8], original: u64) -> (r: Option<u64>)
    ensures
        r matches Some(slot) ==> spec_import_slot(data@, original) == Some(slot as int),
        r is None ==> spec_import_slot(data@, original) is None,
{
    if read16(data, 0) != Some(IMAGE_DOS_SIGNATURE) {
        return None;
    }
    let nt = match read32(data, 0x3C) {
        Some(nt) => nt as u64,
        None => return None,
    };
    if read32(data, nt) != Some(IMAGE_NT_SIGNATURE) {
        return None;
    }
    let optional = nt + 24;
    if read16(data, optional) != Some(IMAGE_NT_OPTIONAL_HDR64_MAGIC) {
        return None;
    }
    let image_size = match read32(data, optional + 56) {
        Some(size) => size as u64,
        None => return None,
    };
    let directory_entry = optional + 112 + 8;
    let directory = match read32(data, directory_entry) {
        Some(rva) => rva as u64,
        None => return None,
    };
    let directory_size = match read32(data, directory_entry + 4) {
        Some(size) => size as u64,
        None => return None,
    };
    if directory == 0 || directory >= image_size {
        return None;
    }
    let count = directory_size / IMPORT_DESCRIPTOR_SIZE;
    let ghost total = count as int;
    let mut index: u64 = 0;
    while index < count
        invariant
            import_directory(data@) == Some((image_size as int, directory as int, directory_size as int)),
            count == directory_size / IMPORT_DESCRIPTOR_SIZE,
            directory < image_size <= u32::MAX,
            count <= u32::MAX,
            index <= count,
            spec_import_slot(data@, original) == descriptor_scan(data@, directory as int, index as int, count as int, image_size as int, original),
        decreases count - index,
    {
        let at = directory + index * IMPORT_DESCRIPTOR_SIZE;
        let name = read32(data, at + 12);
        let first = read32(data, at + 16);
        let (name, first) = match (name, first) {
            (Some(name), Some(first)) => (name as u64, first as u64),
            _ => return None,
        };
        if name == 0 && first == 0 {
            return None;
        }
        if name >= image_size || first >= image_size || !names_user32_at(data, image_size, name) {
            index += 1;
            continue;
        }
        match find_slot(data, first, image_size, original) {
            Some(slot) => return Some(slot),
            None => {},
        }
        index += 1;
    }
    None
}

/// The 14 bytes of an absolute indirect jump to `destination`:
/// `jmp [rip+0]` followed by the 64-bit address, little-endian.
pub open spec fn spec_absolute_jump(destination: u64) -> Seq<u8> {
    seq![0xFFu8, 0x25, 0, 0, 0, 0].add(Seq::new(8, |i: int| ((destination >> (8 * i) as u64) & 0xFF) as u8))
}

pub fn absolute_jump(destination: u64) -> (r: Vec<u8>)
    ensures
        r@ == spec_absolute_jump(destination),
{
    let mut bytes: Vec<u8> = Vec::new();
    bytes.push(0xFF);
    bytes.push(0x25);
    bytes.push(0);
    bytes.push(0);
    bytes.push(0);
    bytes.push(0);
    let mut i: u64 = 0;
    while i < 8
        invariant
            0 <= i <= 8,
            bytes@.len() == 6 + i,
            bytes@.subrange(0, 6) == seq![0xFFu8, 0x25, 0, 0, 0, 0],
            forall|j: int| 0 <= j < i ==> #[trigger] bytes@[6 + j] == ((destination >> (8 * j) as u64) & 0xFF) as u8,
        decreases 8 - i,
    {
        let ghost before = bytes@;
        bytes.push(((destination >> (8 * i)) & 0xFF) as u8);
        assert(bytes@.subrange(0, 6) =~= before.subrange(0, 6));
        i += 1;
    }
    proof {
        let expected = spec_absolute_jump(destination);
        assert forall|k: int| 0 <= k < 14 implies #[trigger] bytes@[k] == expected[k] by {
            if k < 6 {
                assert(bytes@[k] == bytes@.subrange(0, 6)[k]);
            } else {
                assert(bytes@[6 + (k - 6)] == ((destination >> (8 * (k - 6)) as u64) & 0xFF) as u8);
            }
        }
        assert(bytes@ =~= expected);
    }
    bytes
}

} // verus!
