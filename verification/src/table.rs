//! What the search of an export table returns where the table is sound.

use vstd::prelude::*;
use crate::error::ResolveError;
use crate::hash::fingerprint;
use crate::image::{export_directory, resolve_export, ExportDirectory};

verus! {

impl ExportDirectory {
    /// The name at position `i` can be read and has the fingerprint `target`.
    pub open spec fn name_matches(&self, img: Seq<u8>, i: int, target: u32) -> bool {
        self.name(img, i).is_some() && fingerprint(self.name(img, i).unwrap()) == target
    }

    /// The names at the positions before `i` can be read, and none of them
    /// has the fingerprint `target`.
    pub open spec fn none_before(&self, img: Seq<u8>, i: int, target: u32) -> bool {
        forall|j: int|
            0 <= j < i ==> (#[trigger] self.name(img, j)).is_some() && fingerprint(
                self.name(img, j).unwrap(),
            ) != target
    }
}

/// A search that starts at a position before which no name matches goes on
/// as the search from the table's start.
proof fn lemma_search_skips(
    dir: ExportDirectory,
    img: Seq<u8>,
    base: u64,
    target: u32,
    from: int,
    i: int,
)
    requires
        0 <= from <= i <= dir.name_count,
        dir.none_before(img, i, target),
    ensures
        dir.search_from(img, base, target, from) == dir.search_from(img, base, target, i),
    decreases i - from,
{
    if from < i {
        assert(dir.name(img, from).is_some());
        lemma_search_skips(dir, img, base, target, from + 1, i);
    }
}

/// The search returns the address for the first position whose name has the
/// wanted fingerprint.
pub proof fn lemma_search_stops_at_first_match(
    dir: ExportDirectory,
    img: Seq<u8>,
    base: u64,
    target: u32,
    i: int,
)
    requires
        0 <= i < dir.name_count,
        dir.none_before(img, i, target),
        dir.name_matches(img, i, target),
    ensures
        dir.search_from(img, base, target, 0) == dir.address(img, base, i),
{
    lemma_search_skips(dir, img, base, target, 0, i);
}

/// For a name that the module exports, the search returns the module's base
/// plus the offset that the function table records at the ordinal of that
/// name, provided that no earlier name of the table has the same fingerprint
/// and that the sum is an address.
pub proof fn lemma_export_resolves(
    img: Seq<u8>,
    dir: ExportDirectory,
    base: u64,
    i: int,
    ord: u16,
    offset: u32,
)
    requires
        export_directory(img) == Ok::<ExportDirectory, ResolveError>(dir),
        0 <= i < dir.name_count,
        dir.name(img, i).is_some(),
        dir.none_before(img, i, fingerprint(dir.name(img, i).unwrap())),
        dir.ordinal(img, i) == Some(ord),
        dir.function_offset(img, ord as int) == Some(offset),
        base + offset <= u64::MAX,
    ensures
        resolve_export(img, base, fingerprint(dir.name(img, i).unwrap())) == Ok::<
            u64,
            ResolveError,
        >((base + offset) as u64),
{
    lemma_search_stops_at_first_match(dir, img, base, fingerprint(dir.name(img, i).unwrap()), i);
}

/// Where every name of the table can be read and none has the wanted
/// fingerprint, the search reports that the module does not export it.
pub proof fn lemma_export_absent(img: Seq<u8>, dir: ExportDirectory, base: u64, target: u32)
    requires
        export_directory(img) == Ok::<ExportDirectory, ResolveError>(dir),
        dir.none_before(img, dir.name_count as int, target),
    ensures
        resolve_export(img, base, target) == Err::<u64, ResolveError>(ResolveError::ExportNotFound),
{
    lemma_search_skips(dir, img, base, target, 0, dir.name_count as int);
}

} // verus!
