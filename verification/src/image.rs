//! The export directory of a module image, and the search of its named
//! exports by fingerprint.
//!
//! An image is the module as it lies in memory, from its base on: an offset
//! into the image is an address relative to the base. All integers in it are
//! little-endian.

use vstd::prelude::*;
use crate::bytes::{name_at, read_name, read_u16, read_u32, u16_at, u32_at};
use crate::error::ResolveError;
use crate::hash::{calc_checksum, fingerprint};

verus! {

/// Marker at the start of an image.
pub const IMAGE_MAGIC: u16 = 0x5a4d;

/// Offset of the field that says where the extended header starts.
pub const HEADER_LINK: u64 = 0x3c;

/// Marker at the start of the extended header.
pub const HEADER_SIGNATURE: u32 = 0x0000_4550;

/// Offset of the optional header inside the extended header.
pub const OPTIONAL_HEADER: u64 = 24;

/// Marker of an optional header for 32-bit addresses.
pub const OPTIONAL_MAGIC_32: u16 = 0x10b;

/// Marker of an optional header for 64-bit addresses.
pub const OPTIONAL_MAGIC_64: u16 = 0x20b;

/// Offset, inside a 32-bit optional header, of the number of data
/// directories; the directories follow it.
pub const DIRECTORIES_32: u64 = 92;

/// The same offset inside a 64-bit optional header.
pub const DIRECTORIES_64: u64 = 108;

/// Offset, inside an export directory, of the length of the function table.
pub const EXPORT_FUNCTION_COUNT: u64 = 20;

/// Offset of the length of the name table.
pub const EXPORT_NAME_COUNT: u64 = 24;

/// Offset of the field that says where the function table lies.
pub const EXPORT_FUNCTIONS: u64 = 28;

/// Offset of the field that says where the name table lies.
pub const EXPORT_NAMES: u64 = 32;

/// Offset of the field that says where the ordinal table lies.
pub const EXPORT_ORDINALS: u64 = 36;

/// Length of an export directory.
pub const EXPORT_DIRECTORY_LEN: u64 = 40;

/// Where the three tables of an export directory lie, and how long they are.
#[derive(Clone, Copy, Debug, PartialEq, Eq, Structural)]
pub struct ExportDirectory {
    /// Number of entries of the function table.
    pub function_count: u32,
    /// Number of entries of the name table and of the ordinal table.
    pub name_count: u32,
    /// Offset of the function table: one 32-bit offset per ordinal.
    pub functions: u32,
    /// Offset of the name table: one 32-bit offset of a name per position.
    pub names: u32,
    /// Offset of the ordinal table: one 16-bit ordinal per position.
    pub ordinals: u32,
}

/// Offset of the extended header: the image starts with its marker, the link
/// field can be read and is not negative, and the extended header starts with
/// its signature.
pub open spec fn extended_header(img: Seq<u8>) -> Option<int> {
    let link = u32_at(img, HEADER_LINK as int);
    if u16_at(img, 0) == Some(IMAGE_MAGIC) && link.is_some() && link.unwrap() < 0x8000_0000
        && u32_at(img, link.unwrap() as int) == Some(HEADER_SIGNATURE) {
        Some(link.unwrap() as int)
    } else {
        None
    }
}

/// Offset of the number of data directories, which depends on the kind of
/// the optional header.
pub open spec fn directory_count_at(img: Seq<u8>, header: int) -> Option<int> {
    let kind = u16_at(img, header + OPTIONAL_HEADER);
    if kind == Some(OPTIONAL_MAGIC_32) {
        Some(header + OPTIONAL_HEADER + DIRECTORIES_32)
    } else if kind == Some(OPTIONAL_MAGIC_64) {
        Some(header + OPTIONAL_HEADER + DIRECTORIES_64)
    } else {
        None
    }
}

/// The export directory that lies at `at`.
pub open spec fn directory_at(img: Seq<u8>, at: int) -> Option<ExportDirectory> {
    if 0 <= at && at + EXPORT_DIRECTORY_LEN <= img.len() {
        Some(
            ExportDirectory {
                function_count: u32_at(img, at + EXPORT_FUNCTION_COUNT).unwrap(),
                name_count: u32_at(img, at + EXPORT_NAME_COUNT).unwrap(),
                functions: u32_at(img, at + EXPORT_FUNCTIONS).unwrap(),
                names: u32_at(img, at + EXPORT_NAMES).unwrap(),
                ordinals: u32_at(img, at + EXPORT_ORDINALS).unwrap(),
            },
        )
    } else {
        None
    }
}

/// The export directory of an image. The first data directory says where it
/// lies. An image with no data directory, or with none for exports, exports
/// nothing.
pub open spec fn export_directory(img: Seq<u8>) -> Result<ExportDirectory, ResolveError> {
    match extended_header(img) {
        None => Err(ResolveError::MalformedImage),
        Some(header) => match directory_count_at(img, header) {
            None => Err(ResolveError::MalformedImage),
            Some(count_at) => match u32_at(img, count_at) {
                None => Err(ResolveError::MalformedImage),
                Some(count) => if count == 0 {
                    Err(ResolveError::ExportNotFound)
                } else {
                    match u32_at(img, count_at + 4) {
                        None => Err(ResolveError::MalformedImage),
                        Some(at) => if at == 0 {
                            Err(ResolveError::ExportNotFound)
                        } else {
                            match directory_at(img, at as int) {
                                None => Err(ResolveError::MalformedImage),
                                Some(dir) => Ok(dir),
                            }
                        },
                    }
                },
            },
        },
    }
}

impl ExportDirectory {
    /// Offset of the name at position `i` of the name table.
    pub open spec fn name_offset(&self, img: Seq<u8>, i: int) -> Option<u32> {
        u32_at(img, self.names + 4 * i)
    }

    /// The name at position `i` of the name table.
    pub open spec fn name(&self, img: Seq<u8>, i: int) -> Option<Seq<u8>> {
        match self.name_offset(img, i) {
            Some(at) => name_at(img, at as int),
            None => None,
        }
    }

    /// The ordinal that belongs to position `i` of the name table.
    pub open spec fn ordinal(&self, img: Seq<u8>, i: int) -> Option<u16> {
        u16_at(img, self.ordinals + 2 * i)
    }

    /// Offset of the function with ordinal `ord`, if the function table has
    /// such an entry.
    pub open spec fn function_offset(&self, img: Seq<u8>, ord: int) -> Option<u32> {
        if ord < self.function_count {
            u32_at(img, self.functions + 4 * ord)
        } else {
            None
        }
    }

    /// Offset of the function that the name at position `i` stands for: the
    /// entry of the function table at that position's ordinal.
    pub open spec fn named_function(&self, img: Seq<u8>, i: int) -> Option<u32> {
        match self.ordinal(img, i) {
            Some(ord) => self.function_offset(img, ord as int),
            None => None,
        }
    }

    /// Address of the function that the name at position `i` stands for, in
    /// a module loaded at `base`.
    pub open spec fn address(&self, img: Seq<u8>, base: u64, i: int) -> Result<
        u64,
        ResolveError,
    > {
        match self.named_function(img, i) {
            Some(off) => if base + off <= u64::MAX {
                Ok((base + off) as u64)
            } else {
                Err(ResolveError::MalformedImage)
            },
            None => Err(ResolveError::MalformedImage),
        }
    }

    /// The search over the positions from `i` on: the address for the first
    /// position whose name has the fingerprint `target`.
    pub open spec fn search_from(&self, img: Seq<u8>, base: u64, target: u32, i: int) -> Result<
        u64,
        ResolveError,
    >
        decreases self.name_count - i,
    {
        if i < 0 || i >= self.name_count {
            Err(ResolveError::ExportNotFound)
        } else {
            match self.name(img, i) {
                None => Err(ResolveError::MalformedImage),
                Some(name) => if fingerprint(name) == target {
                    self.address(img, base, i)
                } else {
                    self.search_from(img, base, target, i + 1)
                },
            }
        }
    }

    /// Reads the function offset that belongs to position `i` of the name
    /// table and adds it to `base`.
    pub fn export_address(&self, img: &[u8], base: u64, i: u32) -> (r: Result<u64, ResolveError>)
        ensures
            r == self.address(img@, base, i as int),
    {
        let ord: u16 = match read_u16(img, self.ordinals as u64 + 2 * (i as u64)) {
            Some(ord) => ord,
            None => {
                return Err(ResolveError::MalformedImage);
            },
        };
        if ord as u32 >= self.function_count {
            return Err(ResolveError::MalformedImage);
        }
        let off: u32 = match read_u32(img, self.functions as u64 + 4 * (ord as u64)) {
            Some(off) => off,
            None => {
                return Err(ResolveError::MalformedImage);
            },
        };
        match base.checked_add(off as u64) {
            Some(address) => Ok(address),
            None => Err(ResolveError::MalformedImage),
        }
    }

    /// Goes through the name table from its start and returns the address
    /// for the first name with the fingerprint `target`.
    pub fn search(&self, img: &[u8], base: u64, target: u32) -> (r: Result<u64, ResolveError>)
        ensures
            r == self.search_from(img@, base, target, 0),
    {
        let mut i: u32 = 0;
        while i < self.name_count
            invariant
                i <= self.name_count,
                self.search_from(img@, base, target, 0) == self.search_from(
                    img@,
                    base,
                    target,
                    i as int,
                ),
            decreases self.name_count - i,
        {
            let at: u32 = match read_u32(img, self.names as u64 + 4 * (i as u64)) {
                Some(at) => at,
                None => {
                    return Err(ResolveError::MalformedImage);
                },
            };
            let name: &[u8] = match read_name(img, at as u64) {
                Some(name) => name,
                None => {
                    return Err(ResolveError::MalformedImage);
                },
            };
            if calc_checksum(name) == target {
                return self.export_address(img, base, i);
            }
            i += 1;
        }
        Err(ResolveError::ExportNotFound)
    }
}

/// Offset of the extended header of an image.
pub fn read_extended_header(img: &[u8]) -> (r: Option<u32>)
    ensures
        match r {
            Some(header) => extended_header(img@) == Some(header as int),
            None => extended_header(img@).is_none(),
        },
{
    if read_u16(img, 0) != Some(IMAGE_MAGIC) {
        return None;
    }
    let link: u32 = match read_u32(img, HEADER_LINK) {
        Some(link) => link,
        None => {
            return None;
        },
    };
    if link >= 0x8000_0000 {
        return None;
    }
    if read_u32(img, link as u64) != Some(HEADER_SIGNATURE) {
        return None;
    }
    Some(link)
}

/// Reads the export directory of an image.
pub fn read_export_directory(img: &[u8]) -> (r: Result<ExportDirectory, ResolveError>)
    ensures
        r == export_directory(img@),
{
    let header: u64 = match read_extended_header(img) {
        Some(header) => header as u64,
        None => {
            return Err(ResolveError::MalformedImage);
        },
    };
    let optional: u64 = header + OPTIONAL_HEADER;
    let count_at: u64 = match read_u16(img, optional) {
        Some(kind) => {
            if kind == OPTIONAL_MAGIC_32 {
                optional + DIRECTORIES_32
            } else if kind == OPTIONAL_MAGIC_64 {
                optional + DIRECTORIES_64
            } else {
                return Err(ResolveError::MalformedImage);
            }
        },
        None => {
            return Err(ResolveError::MalformedImage);
        },
    };
    match read_u32(img, count_at) {
        None => {
            return Err(ResolveError::MalformedImage);
        },
        Some(count) => {
            if count == 0 {
                return Err(ResolveError::ExportNotFound);
            }
        },
    }
    let at: u64 = match read_u32(img, count_at + 4) {
        None => {
            return Err(ResolveError::MalformedImage);
        },
        Some(at) => at as u64,
    };
    if at == 0 {
        return Err(ResolveError::ExportNotFound);
    }
    let function_count = read_u32(img, at + EXPORT_FUNCTION_COUNT);
    let name_count = read_u32(img, at + EXPORT_NAME_COUNT);
    let functions = read_u32(img, at + EXPORT_FUNCTIONS);
    let names = read_u32(img, at + EXPORT_NAMES);
    let ordinals = read_u32(img, at + EXPORT_ORDINALS);
    match (function_count, name_count, functions, names, ordinals) {
        (Some(function_count), Some(name_count), Some(functions), Some(names), Some(ordinals)) => {
            Ok(ExportDirectory { function_count, name_count, functions, names, ordinals })
        },
        _ => Err(ResolveError::MalformedImage),
    }
}

/// What the search of an image for an export returns: the address, in a
/// module loaded at `base`, of the first named export whose name has the
/// fingerprint `target`.
pub open spec fn resolve_export(img: Seq<u8>, base: u64, target: u32) -> Result<u64, ResolveError> {
    match export_directory(img) {
        Err(e) => Err(e),
        Ok(dir) => dir.search_from(img, base, target, 0),
    }
}

/// Address of the export of the module whose name has the fingerprint
/// `target`.
pub fn find_export(img: &[u8], base: u64, target: u32) -> (r: Result<u64, ResolveError>)
    ensures
        r == resolve_export(img@, base, target),
{
    match read_export_directory(img) {
        Err(e) => Err(e),
        Ok(dir) => dir.search(img, base, target),
    }
}

} // verus!
