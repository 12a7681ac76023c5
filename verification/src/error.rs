//! The ways in which a lookup can fail.

use vstd::prelude::*;

verus! {

/// Why a lookup produced no address.
#[derive(Clone, Copy, Debug, PartialEq, Eq, Structural)]
pub enum ResolveError {
    /// No loaded module has the wanted fingerprint.
    ModuleNotFound,
    /// No named export of the module has the wanted fingerprint.
    ExportNotFound,
    /// The data does not have the shape it must have: a link or an offset
    /// leads outside of it, a marker is wrong, or a name has no end.
    MalformedImage,
}

} // verus!
