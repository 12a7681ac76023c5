//! The whole lookup: the module by the fingerprint of its name, then the
//! export by the fingerprint of its name.

use vstd::prelude::*;
use crate::error::ResolveError;
use crate::hash::{calc_checksum, calc_wide_checksum, fingerprint, fingerprint_wide};
use crate::image::{export_directory, find_export, resolve_export, ExportDirectory};
use crate::modules::{walk, ModuleDescriptor, ModuleList};

verus! {

/// Address of the export with fingerprint `func_sum` in the first module on
/// the walk whose name has the fingerprint `lib_sum`. Only that module is
/// searched.
pub open spec fn resolve(list: ModuleList, lib_sum: u32, func_sum: u32) -> Result<
    u64,
    ResolveError,
> {
    match list.locate(lib_sum).found {
        Err(e) => Err(e),
        Ok(i) => resolve_export(list.nodes@[i as int].image@, list.nodes@[i as int].base, func_sum),
    }
}

/// A lookup that fails for want of the export did find the module, and one
/// that fails for want of the module searched no image.
pub proof fn lemma_failure_names_its_stage(list: ModuleList, lib_sum: u32, func_sum: u32)
    ensures
        resolve(list, lib_sum, func_sum) == Err::<u64, ResolveError>(ResolveError::ExportNotFound)
            ==> list.locate(lib_sum).found.is_ok(),
        resolve(list, lib_sum, func_sum) == Err::<u64, ResolveError>(ResolveError::ModuleNotFound)
            ==> list.locate(lib_sum).found == Err::<usize, ResolveError>(
            ResolveError::ModuleNotFound,
        ),
{
    if list.locate(lib_sum).found.is_ok() {
        lemma_export_never_blames_module(
            list.nodes@[list.locate(lib_sum).found.unwrap() as int].image@,
            list.nodes@[list.locate(lib_sum).found.unwrap() as int].base,
            func_sum,
        );
    } else {
        lemma_walk_never_blames_export(list, lib_sum);
    }
}

/// The search of an image never reports a missing module.
pub proof fn lemma_export_never_blames_module(img: Seq<u8>, base: u64, target: u32)
    ensures
        resolve_export(img, base, target) != Err::<u64, ResolveError>(ResolveError::ModuleNotFound),
{
    let dir = export_directory(img);
    if dir.is_ok() {
        lemma_search_never_blames_module(dir.unwrap(), img, base, target, 0);
    }
}

/// No step of the search of a name table reports a missing module.
proof fn lemma_search_never_blames_module(
    dir: ExportDirectory,
    img: Seq<u8>,
    base: u64,
    target: u32,
    i: int,
)
    ensures
        dir.search_from(img, base, target, i) != Err::<u64, ResolveError>(
            ResolveError::ModuleNotFound,
        ),
    decreases dir.name_count - i,
{
    if 0 <= i < dir.name_count {
        lemma_search_never_blames_module(dir, img, base, target, i + 1);
    }
}

/// The walk over the modules never reports a missing export.
pub proof fn lemma_walk_never_blames_export(list: ModuleList, target: u32)
    ensures
        list.locate(target).found != Err::<usize, ResolveError>(ResolveError::ExportNotFound),
{
    lemma_walk_errors(list.nodes@, list.first, list.first, list.nodes@.len(), target);
}

/// No step of a walk reports a missing export.
proof fn lemma_walk_errors(
    nodes: Seq<ModuleDescriptor>,
    first: usize,
    cur: usize,
    budget: nat,
    target: u32,
)
    ensures
        walk(nodes, first, cur, budget, target).found != Err::<
            usize,
            ResolveError,
        >(ResolveError::ExportNotFound),
    decreases budget,
{
    if budget > 0 && cur < nodes.len() {
        lemma_walk_errors(nodes, first, nodes[cur as int].next, (budget - 1) as nat, target);
    }
}

/// Looks a routine up by the fingerprints of the module's and the routine's
/// names.
pub fn find_routine(list: &ModuleList, lib_sum: u32, func_sum: u32) -> (r: Result<
    u64,
    ResolveError,
>)
    ensures
        r == resolve(*list, lib_sum, func_sum),
        r == Err::<u64, ResolveError>(ResolveError::ExportNotFound) ==> list.locate(
            lib_sum,
        ).found.is_ok(),
{
    proof {
        lemma_failure_names_its_stage(*list, lib_sum, func_sum);
    }
    match list.scan_modules(lib_sum).0 {
        Err(e) => Err(e),
        Ok(i) => {
            let module = &list.nodes[i];
            find_export(module.image.as_slice(), module.base, func_sum)
        },
    }
}

/// Looks a routine up by the names of the module and of the routine, which
/// are compared by their fingerprints alone.
pub fn find_routine_by_name(list: &ModuleList, module: &[u16], routine: &[u8]) -> (r: Result<
    u64,
    ResolveError,
>)
    ensures
        r == resolve(*list, fingerprint_wide(module@), fingerprint(routine@)),
{
    let lib_sum: u32 = calc_wide_checksum(module);
    let func_sum: u32 = calc_checksum(routine);
    find_routine(list, lib_sum, func_sum)
}

} // verus!
