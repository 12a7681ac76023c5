//! The list of loaded modules, and the search of it by name fingerprint.
//!
//! A list is held as a table of descriptors. Each descriptor names, by its
//! position in the table, the descriptor that its forward link leads to; the
//! links of a sound list form one ring through the first descriptor.

use vstd::prelude::*;
use crate::error::ResolveError;
use crate::hash::{calc_wide_checksum, fingerprint_wide};

verus! {

/// One loaded module.
#[derive(Debug)]
pub struct ModuleDescriptor {
    /// Position of the descriptor that the forward link leads to.
    pub next: usize,
    /// Address at which the module's image starts.
    pub base: u64,
    /// Length of the display name in bytes; two bytes make one code unit.
    pub name_len: u16,
    /// Buffer that holds the display name; what lies behind the name's
    /// length does not belong to it.
    pub name: Vec<u16>,
    /// The module's image, from its base on.
    pub image: Vec<u8>,
}

/// The loaded modules of one process.
#[derive(Debug)]
pub struct ModuleList {
    /// Position of the descriptor at which a walk starts and ends.
    pub first: usize,
    /// The descriptors.
    pub nodes: Vec<ModuleDescriptor>,
}

/// What a walk found, and how many descriptors it looked at.
pub struct Walk {
    /// Position of the descriptor that matched, or why there is none.
    pub found: Result<usize, ResolveError>,
    /// Number of descriptors examined.
    pub visited: nat,
}

impl ModuleDescriptor {
    /// Number of code units in the display name.
    pub open spec fn name_units(&self) -> nat {
        (self.name_len / 2) as nat
    }

    /// The buffer is long enough to hold the display name.
    pub open spec fn has_name(&self) -> bool {
        self.name_units() <= self.name@.len()
    }

    /// The display name.
    pub open spec fn display_name(&self) -> Seq<u16> {
        self.name@.take(self.name_units() as int)
    }

    /// The descriptor has a display name with this fingerprint.
    pub open spec fn matches(&self, target: u32) -> bool {
        self.has_name() && fingerprint_wide(self.display_name()) == target
    }

    /// Fingerprint of the display name, if the buffer holds all of it.
    pub fn name_checksum(&self) -> (r: Option<u32>)
        ensures
            r == (if self.has_name() {
                Some(fingerprint_wide(self.display_name()))
            } else {
                None
            }),
    {
        let units: usize = (self.name_len / 2) as usize;
        if units > self.name.len() {
            return None;
        }
        let name = vstd::slice::slice_subrange(self.name.as_slice(), 0, units);
        assert(name@ =~= self.display_name());
        Some(calc_wide_checksum(name))
    }
}

/// The walk that starts at `cur` and may examine `budget` descriptors more.
pub open spec fn walk(
    nodes: Seq<ModuleDescriptor>,
    first: usize,
    cur: usize,
    budget: nat,
    target: u32,
) -> Walk
    decreases budget,
{
    if budget == 0 || cur >= nodes.len() {
        Walk { found: Err(ResolveError::MalformedImage), visited: 0 }
    } else if !nodes[cur as int].has_name() {
        Walk { found: Err(ResolveError::MalformedImage), visited: 1 }
    } else if nodes[cur as int].matches(target) {
        Walk { found: Ok(cur), visited: 1 }
    } else if nodes[cur as int].next == first {
        Walk { found: Err(ResolveError::ModuleNotFound), visited: 1 }
    } else {
        let rest = walk(nodes, first, nodes[cur as int].next, (budget - 1) as nat, target);
        Walk { found: rest.found, visited: rest.visited + 1 }
    }
}

impl ModuleList {
    /// The walk over the whole list: it starts at the first descriptor,
    /// follows the forward links, and stops at the first descriptor whose name
    /// has the fingerprint, or when a link leads back to the start. A list
    /// without descriptors holds no module. A link that leads out of the table,
    /// a name longer than its buffer, or links that do not come back to the
    /// start within as many steps as there are descriptors make the list
    /// malformed.
    pub open spec fn locate(&self, target: u32) -> Walk {
        if self.nodes@.len() == 0 {
            Walk { found: Err(ResolveError::ModuleNotFound), visited: 0 }
        } else {
            walk(self.nodes@, self.first, self.first, self.nodes@.len(), target)
        }
    }

    /// Base address of the module that the walk finds.
    pub open spec fn module_base(&self, target: u32) -> Result<u64, ResolveError> {
        match self.locate(target).found {
            Ok(i) => Ok(self.nodes@[i as int].base),
            Err(e) => Err(e),
        }
    }

    /// Walks the list and says which descriptor matched and how many
    /// descriptors were examined.
    pub fn scan_modules(&self, target: u32) -> (r: (Result<usize, ResolveError>, usize))
        ensures
            r.0 == self.locate(target).found,
            r.1 == self.locate(target).visited,
            r.1 <= self.nodes@.len(),
            r.0 matches Ok(i) ==> i < self.nodes@.len() && self.nodes@[i as int].matches(target),
    {
        let n: usize = self.nodes.len();
        if n == 0 {
            return (Err(ResolveError::ModuleNotFound), 0);
        }
        let mut cur: usize = self.first;
        let mut visited: usize = 0;
        while visited < n
            invariant
                n == self.nodes@.len(),
                visited <= n,
                self.locate(target).found == walk(
                    self.nodes@,
                    self.first,
                    cur,
                    (n - visited) as nat,
                    target,
                ).found,
                self.locate(target).visited == walk(
                    self.nodes@,
                    self.first,
                    cur,
                    (n - visited) as nat,
                    target,
                ).visited + visited,
            decreases n - visited,
        {
            if cur >= n {
                return (Err(ResolveError::MalformedImage), visited);
            }
            let node = &self.nodes[cur];
            visited += 1;
            match node.name_checksum() {
                None => {
                    return (Err(ResolveError::MalformedImage), visited);
                },
                Some(sum) => {
                    if sum == target {
                        return (Ok(cur), visited);
                    }
                },
            }
            if node.next == self.first {
                return (Err(ResolveError::ModuleNotFound), visited);
            }
            cur = node.next;
        }
        (Err(ResolveError::MalformedImage), visited)
    }

    /// Base address of the first module on the walk whose display name has
    /// the fingerprint `target`.
    pub fn find_module(&self, target: u32) -> (r: Result<u64, ResolveError>)
        ensures
            r == self.module_base(target),
    {
        match self.scan_modules(target).0 {
            Ok(i) => Ok(self.nodes[i].base),
            Err(e) => Err(e),
        }
    }
}

} // verus!
