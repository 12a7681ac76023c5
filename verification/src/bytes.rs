//! Little-endian integers and zero-terminated names inside a byte image.

use vstd::prelude::*;

verus! {

/// The 16-bit little-endian integer at `off`, if the image holds its two
/// bytes.
pub open spec fn u16_at(img: Seq<u8>, off: int) -> Option<u16> {
    if 0 <= off && off + 2 <= img.len() {
        Some((img[off] + img[off + 1] * 0x100) as u16)
    } else {
        None
    }
}

/// The 32-bit little-endian integer at `off`, if the image holds its four
/// bytes.
pub open spec fn u32_at(img: Seq<u8>, off: int) -> Option<u32> {
    if 0 <= off && off + 4 <= img.len() {
        Some(
            (img[off] + img[off + 1] * 0x100 + img[off + 2] * 0x1_0000 + img[off + 3]
                * 0x100_0000) as u32,
        )
    } else {
        None
    }
}

/// Position of the first zero byte at or after `start`, if there is one.
pub open spec fn name_end(img: Seq<u8>, start: int) -> Option<int>
    decreases img.len() - start,
{
    if start < 0 || start >= img.len() {
        None
    } else if img[start] == 0 {
        Some(start)
    } else {
        name_end(img, start + 1)
    }
}

/// The name that starts at `start`: the bytes up to the first zero byte,
/// which is not part of it. An image without a zero byte from `start` on
/// holds no name there.
pub open spec fn name_at(img: Seq<u8>, start: int) -> Option<Seq<u8>> {
    match name_end(img, start) {
        Some(end) => Some(img.subrange(start, end)),
        None => None,
    }
}

/// The end of a name is the first zero byte from its start on; where there
/// is no end, no byte from the start on is zero.
pub proof fn lemma_name_end(img: Seq<u8>, start: int)
    ensures
        match name_end(img, start) {
            Some(end) => {
                &&& 0 <= start <= end < img.len()
                &&& img[end] == 0
                &&& forall|j: int| start <= j < end ==> img[j] != 0
            },
            None => forall|j: int| 0 <= start <= j < img.len() ==> img[j] != 0,
        },
    decreases img.len() - start,
{
    if 0 <= start < img.len() && img[start] != 0 {
        lemma_name_end(img, start + 1);
    }
}

/// Reads a 16-bit little-endian integer.
pub fn read_u16(img: &[u8], off: u64) -> (r: Option<u16>)
    ensures
        r == u16_at(img@, off as int),
{
    let len: usize = img.len();
    if len < 2 || off > (len - 2) as u64 {
        return None;
    }
    let i: usize = off as usize;
    Some(img[i] as u16 + img[i + 1] as u16 * 0x100)
}

/// Reads a 32-bit little-endian integer.
pub fn read_u32(img: &[u8], off: u64) -> (r: Option<u32>)
    ensures
        r == u32_at(img@, off as int),
{
    let len: usize = img.len();
    if len < 4 || off > (len - 4) as u64 {
        return None;
    }
    let i: usize = off as usize;
    Some(
        img[i] as u32 + img[i + 1] as u32 * 0x100 + img[i + 2] as u32 * 0x1_0000 + img[i + 3] as u32
            * 0x100_0000,
    )
}

/// Finds the end of the name that starts at `start`, and hands out the name:
/// the bytes from `start` up to the first zero byte. Without such a byte
/// there is no name.
pub fn read_name(img: &[u8], start: u64) -> (r: Option<&[u8]>)
    ensures
        match r {
            Some(name) => {
                &&& name_at(img@, start as int) == Some(name@)
                &&& start + name@.len() < img@.len()
                &&& name@ == img@.subrange(start as int, start + name@.len())
                &&& img@[start + name@.len()] == 0
                &&& forall|j: int| 0 <= j < name@.len() ==> name@[j] != 0
            },
            None => {
                &&& name_at(img@, start as int).is_none()
                &&& forall|j: int| start <= j < img@.len() ==> img@[j] != 0
            },
        },
{
    proof {
        lemma_name_end(img@, start as int);
    }
    let len: usize = img.len();
    if start >= len as u64 {
        return None;
    }
    let first: usize = start as usize;
    let mut end: usize = first;
    while end < len && img[end] != 0
        invariant
            len == img@.len(),
            first <= end <= len,
            name_end(img@, first as int) == name_end(img@, end as int),
        decreases len - end,
    {
        end += 1;
    }
    if end == len {
        return None;
    }
    Some(vstd::slice::slice_subrange(img, first, end))
}

} // verus!
