use vstd::prelude::*;

verus! {

/// Big-endian 16-bit value at `off`.
pub open spec fn be16(b: Seq<u8>, off: int) -> int {
    b[off] * 256 + b[off + 1]
}

/// Little-endian 16-bit value at `off`.
pub open spec fn le16(b: Seq<u8>, off: int) -> int {
    b[off] + b[off + 1] * 256
}

/// 16-bit value at `off` in the TIFF block's byte order.
pub open spec fn tiff_u16(t: Seq<u8>, off: int, big_endian: bool) -> int {
    if big_endian {
        be16(t, off)
    } else {
        le16(t, off)
    }
}

/// 32-bit value at `off` in the TIFF block's byte order.
pub open spec fn tiff_u32(t: Seq<u8>, off: int, big_endian: bool) -> int {
    if big_endian {
        be16(t, off) * 65536 + be16(t, off + 2)
    } else {
        le16(t, off) + le16(t, off + 2) * 65536
    }
}

/// Clockwise correction, in degrees, for an orientation tag value; values
/// other than 3, 6 and 8 ask for none.
pub open spec fn orientation_degrees(value: int) -> Option<u16> {
    if value == 3 {
        Some(180u16)
    } else if value == 6 {
        Some(90u16)
    } else if value == 8 {
        Some(270u16)
    } else {
        None
    }
}

/// The orientation that the directory entry at `p` (tag 0x0112) gives: an
/// inline SHORT value, or a SHORT stored at the entry's offset.
pub open spec fn entry_orientation(t: Seq<u8>, big_endian: bool, p: int) -> Option<u16> {
    let typ = tiff_u16(t, p + 2, big_endian);
    let cnt = tiff_u32(t, p + 4, big_endian);
    if typ == 3 && cnt == 1 {
        orientation_degrees(tiff_u16(t, p + 8, big_endian))
    } else if typ == 3 && cnt >= 1 {
        let off = tiff_u32(t, p + 8, big_endian);
        if off + 2 <= t.len() {
            orientation_degrees(tiff_u16(t, off, big_endian))
        } else {
            None
        }
    } else {
        None
    }
}

/// Walks `remaining` twelve-byte directory entries from `p` looking for the
/// orientation tag.
pub open spec fn ifd_orientation(t: Seq<u8>, big_endian: bool, p: int, remaining: int) -> Option<
    u16,
>
    decreases remaining,
{
    if remaining <= 0 || p + 12 > t.len() {
        None
    } else if tiff_u16(t, p, big_endian) == 0x0112 {
        entry_orientation(t, big_endian, p)
    } else {
        ifd_orientation(t, big_endian, p + 12, remaining - 1)
    }
}

/// Orientation correction recorded in a TIFF block (the body of an Exif
/// segment): byte order mark, magic 42, then the first directory.
pub open spec fn spec_tiff_orientation(t: Seq<u8>) -> Option<u16> {
    if t.len() < 8 {
        None
    } else if !((t[0] == 0x4D && t[1] == 0x4D) || (t[0] == 0x49 && t[1] == 0x49)) {
        None
    } else {
        let be = t[0] == 0x4D;
        let ifd = tiff_u32(t, 4, be);
        if tiff_u16(t, 2, be) != 0x002A || ifd + 2 > t.len() {
            None
        } else {
            ifd_orientation(t, be, ifd + 2, tiff_u16(t, ifd, be))
        }
    }
}

/// The six bytes "Exif\0\0" stand at `k`.
pub open spec fn exif_header_at(b: Seq<u8>, k: int) -> bool {
    &&& b[k] == 0x45
    &&& b[k + 1] == 0x78
    &&& b[k + 2] == 0x69
    &&& b[k + 3] == 0x66
    &&& b[k + 4] == 0
    &&& b[k + 5] == 0
}

/// Scan of JPEG marker segments from position `i`: filler bytes are
/// skipped, the scan stops at end of image or start of scan, and the first
/// APP1 segment with an Exif header decides.
pub open spec fn jpeg_scan(b: Seq<u8>, i: int) -> Option<u16>
    decreases b.len() - i,
{
    if i < 0 || i + 4 > b.len() {
        None
    } else if b[i] != 0xFF {
        jpeg_scan(b, i + 1)
    } else {
        let marker = b[i + 1];
        let k = i + 4;
        let seg_len = be16(b, i + 2);
        if marker == 0xD9 || marker == 0xDA {
            None
        } else if seg_len < 2 || k + seg_len - 2 > b.len() {
            None
        } else if marker == 0xE1 && seg_len - 2 >= 6 && exif_header_at(b, k) {
            spec_tiff_orientation(b.subrange(k + 6, k + seg_len - 2))
        } else {
            jpeg_scan(b, k + seg_len - 2)
        }
    }
}

/// Orientation correction recorded in a JPEG's Exif block; `None` when the
/// data is not a JPEG, has no Exif block, or the block gives no correction.
pub open spec fn spec_jpeg_orientation(b: Seq<u8>) -> Option<u16> {
    if b.len() < 4 || b[0] != 0xFF || b[1] != 0xD8 {
        None
    } else {
        jpeg_scan(b, 2)
    }
}

fn read_u16(t: &[u8], off: usize, big_endian: bool) -> (r: u32)
    requires
        off + 2 <= t@.len(),
    ensures
        r == tiff_u16(t@, off as int, big_endian),
{
    if big_endian {
        t[off] as u32 * 256 + t[off + 1] as u32
    } else {
        t[off] as u32 + t[off + 1] as u32 * 256
    }
}

fn read_u32(t: &[u8], off: usize, big_endian: bool) -> (r: u64)
    requires
        off + 4 <= t@.len(),
    ensures
        r == tiff_u32(t@, off as int, big_endian),
{
    let n = t.len();
    assert(off + 2 <= n);
    let a = read_u16(t, off, big_endian) as u64;
    let b = read_u16(t, off + 2, big_endian) as u64;
    if big_endian {
        a * 65536 + b
    } else {
        a + b * 65536
    }
}

fn orientation_from_value(value: u32) -> (r: Option<u16>)
    ensures
        r == orientation_degrees(value as int),
{
    match value {
        3 => Some(180),
        6 => Some(90),
        8 => Some(270),
        _ => None,
    }
}

/// Orientation correction recorded in a TIFF block, in degrees clockwise.
pub fn parse_tiff_orientation(tiff: &[u8]) -> (r: Option<u16>)
    ensures
        r == spec_tiff_orientation(tiff@),
{
    let len = tiff.len();
    if len < 8 {
        return None;
    }
    let be = if tiff[0] == 0x4D && tiff[1] == 0x4D {
        true
    } else if tiff[0] == 0x49 && tiff[1] == 0x49 {
        false
    } else {
        return None;
    };
    if read_u16(tiff, 2, be) != 0x002A {
        return None;
    }
    let ifd0 = read_u32(tiff, 4, be);
    if ifd0 + 2 > len as u64 {
        return None;
    }
    let count = read_u16(tiff, ifd0 as usize, be);
    let mut p: usize = ifd0 as usize + 2;
    let mut remaining: u32 = count;
    while remaining > 0
        invariant
            len == tiff@.len(),
            p <= len,
            len >= 8,
            be == (tiff@[0] == 0x4D),
            spec_tiff_orientation(tiff@) == ifd_orientation(tiff@, be, p as int, remaining as int),
        decreases remaining,
    {
        if len - p < 12 {
            return None;
        }
        let tag = read_u16(tiff, p, be);
        if tag == 0x0112 {
            let typ = read_u16(tiff, p + 2, be);
            let cnt = read_u32(tiff, p + 4, be);
            if typ == 3 && cnt == 1 {
                let value = read_u16(tiff, p + 8, be);
                return orientation_from_value(value);
            } else if typ == 3 && cnt >= 1 {
                let off = read_u32(tiff, p + 8, be);
                if off + 2 <= len as u64 {
                    let value = read_u16(tiff, off as usize, be);
                    return orientation_from_value(value);
                }
            }
            return None;
        }
        p = p + 12;
        remaining = remaining - 1;
    }
    None
}

/// Orientation correction recorded in a JPEG's Exif metadata, in degrees
/// clockwise (90, 180 or 270).
pub fn exif_orientation_from_jpeg(bytes: &[u8]) -> (r: Option<u16>)
    ensures
        r == spec_jpeg_orientation(bytes@),
{
    let len = bytes.len();
    if len < 4 || bytes[0] != 0xFF || bytes[1] != 0xD8 {
        return None;
    }
    let mut i: usize = 2;
    while len - i >= 4
        invariant
            len == bytes@.len(),
            2 <= i <= len,
            spec_jpeg_orientation(bytes@) == jpeg_scan(bytes@, i as int),
        decreases len - i,
    {
        if bytes[i] != 0xFF {
            i = i + 1;
            continue;
        }
        let marker = bytes[i + 1];
        if marker == 0xD9 || marker == 0xDA {
            return None;
        }
        let seg_len = bytes[i + 2] as usize * 256 + bytes[i + 3] as usize;
        let k = i + 4;
        if seg_len < 2 || seg_len - 2 > len - k {
            return None;
        }
        if marker == 0xE1 && seg_len - 2 >= 6 && bytes[k] == 0x45 && bytes[k + 1] == 0x78
            && bytes[k + 2] == 0x69 && bytes[k + 3] == 0x66 && bytes[k + 4] == 0 && bytes[k + 5]
            == 0 {
            let body = slice_range(bytes, k + 6, k + (seg_len - 2));
            return parse_tiff_orientation(body);
        }
        i = k + (seg_len - 2);
    }
    None
}

/// The part `start..end` of a slice.
pub(crate) fn slice_range(b: &[u8], start: usize, end: usize) -> (r: &[u8])
    requires
        start <= end <= b@.len(),
    ensures
        r@ == b@.subrange(start as int, end as int),
{
    let (front, _) = b.split_at(end);
    let (_, middle) = front.split_at(start);
    middle
}

} // verus!
