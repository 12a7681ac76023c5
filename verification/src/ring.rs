//! The ring of forward links: the descriptors in the order in which a walk
//! meets them, and what a walk over a sound ring returns.

use vstd::prelude::*;
use vstd::relations::injective_on;
use vstd::set_lib::{lemma_int_range, lemma_len_subset, lemma_map_size, set_int_range};
use crate::error::ResolveError;
use crate::modules::{walk, ModuleDescriptor, ModuleList, Walk};

verus! {

/// Position of the descriptor that is reached from `first` over `k` forward
/// links. A position outside the table has no link and is kept.
pub open spec fn node_at(nodes: Seq<ModuleDescriptor>, first: usize, k: nat) -> usize
    decreases k,
{
    if k == 0 {
        first
    } else {
        let p = node_at(nodes, first, (k - 1) as nat);
        if p < nodes.len() {
            nodes[p as int].next
        } else {
            p
        }
    }
}

impl ModuleList {
    /// Position of the `k`-th descriptor on the walk, counted from zero.
    pub open spec fn at(&self, k: nat) -> usize {
        node_at(self.nodes@, self.first, k)
    }

    /// The forward links form a ring of `len` descriptors through the first
    /// one: the first `len` descriptors on the walk lie in the table, and the
    /// link of the last of them, and of no earlier one, leads back to the
    /// start.
    pub open spec fn is_ring(&self, len: nat) -> bool {
        &&& 1 <= len
        &&& forall|j: nat| j < len ==> #[trigger] self.at(j) < self.nodes@.len()
        &&& forall|j: nat|
            j < len ==> (self.nodes@[#[trigger] self.at(j) as int].next == self.first <==> j + 1
                == len)
    }

    /// Every descriptor of the ring carries a name that its buffer holds.
    pub open spec fn ring_has_names(&self, len: nat) -> bool {
        forall|j: nat| j < len ==> self.nodes@[#[trigger] self.at(j) as int].has_name()
    }
}

/// Two walks that meet stay together.
proof fn lemma_meet_then_together(nodes: Seq<ModuleDescriptor>, first: usize, i: nat, j: nat, t: nat)
    requires
        node_at(nodes, first, i) == node_at(nodes, first, j),
    ensures
        node_at(nodes, first, i + t) == node_at(nodes, first, j + t),
    decreases t,
{
    if t > 0 {
        lemma_meet_then_together(nodes, first, i, j, (t - 1) as nat);
        assert(i + t - 1 == i + (t - 1) as nat);
        assert(j + t - 1 == j + (t - 1) as nat);
    }
}

/// No descriptor occurs twice in a ring.
pub proof fn lemma_ring_distinct(list: ModuleList, len: nat, i: nat, j: nat)
    requires
        list.is_ring(len),
        i < j < len,
    ensures
        list.at(i) != list.at(j),
{
    if list.at(i) == list.at(j) {
        let t = (len - j) as nat;
        lemma_meet_then_together(list.nodes@, list.first, i, j, t);
        let m = i + t;
        assert(j + t == len);
        // the walk is back at the start after `len` links ...
        assert(list.at((len - 1) as nat) < list.nodes@.len());
        assert(list.at(len) == list.first);
        // ... and so after `m` links, which are fewer
        assert(list.at((m - 1) as nat) < list.nodes@.len());
        assert(list.nodes@[list.at((m - 1) as nat) as int].next == list.first);
        assert(false);
    }
}

/// A ring has no more descriptors than the table.
pub proof fn lemma_ring_fits(list: ModuleList, len: nat)
    requires
        list.is_ring(len),
    ensures
        len <= list.nodes@.len(),
{
    let n = list.nodes@.len() as int;
    let steps = set_int_range(0, len as int);
    let table = set_int_range(0, n);
    let f = |k: int| list.at(k as nat) as int;
    lemma_int_range(0, len as int);
    lemma_int_range(0, n);
    assert(injective_on(f, steps)) by {
        assert forall|a: int, b: int|
            steps.contains(a) && steps.contains(b) && #[trigger] f(a) == #[trigger] f(b) implies a
            == b by {
            if a < b {
                lemma_ring_distinct(list, len, a as nat, b as nat);
            } else if b < a {
                lemma_ring_distinct(list, len, b as nat, a as nat);
            }
        }
    }
    let reached = steps.map(f);
    lemma_map_size(steps, reached, f);
    assert(reached.subset_of(table)) by {
        assert forall|x: int| reached.contains(x) implies table.contains(x) by {
            let k = choose|k: int| steps.contains(k) && x == f(k);
            assert(list.at(k as nat) < list.nodes@.len());
        }
    }
    lemma_len_subset(reached, table);
}

/// A walk that starts at the `j`-th descriptor of a ring, with budget enough
/// to reach the `k`-th, stops there if that one matches and none from the
/// `j`-th on does before it.
proof fn lemma_walk_reaches(list: ModuleList, len: nat, target: u32, j: nat, k: nat, budget: nat)
    requires
        list.is_ring(len),
        list.ring_has_names(len),
        j <= k < len,
        budget > k - j,
        forall|m: nat| j <= m < k ==> !list.nodes@[#[trigger] list.at(m) as int].matches(target),
        list.nodes@[list.at(k) as int].matches(target),
    ensures
        walk(list.nodes@, list.first, list.at(j), budget, target) == (Walk {
            found: Ok(list.at(k)),
            visited: (k - j + 1) as nat,
        }),
    decreases k - j,
{
    assert(list.at(j) < list.nodes@.len());
    assert(list.nodes@[list.at(j) as int].has_name());
    if j < k {
        assert(!list.nodes@[list.at(j) as int].matches(target));
        assert(list.nodes@[list.at(j) as int].next != list.first);
        assert(list.at(j + 1) == list.nodes@[list.at(j) as int].next);
        lemma_walk_reaches(list, len, target, j + 1, k, (budget - 1) as nat);
    }
}

/// A walk that starts at the `j`-th descriptor of a ring in which none from
/// there on matches ends at the ring's last descriptor, with nothing found.
proof fn lemma_walk_exhausts(list: ModuleList, len: nat, target: u32, j: nat, budget: nat)
    requires
        list.is_ring(len),
        list.ring_has_names(len),
        j < len,
        budget >= len - j,
        forall|m: nat| j <= m < len ==> !list.nodes@[#[trigger] list.at(m) as int].matches(target),
    ensures
        walk(list.nodes@, list.first, list.at(j), budget, target) == (Walk {
            found: Err(ResolveError::ModuleNotFound),
            visited: (len - j) as nat,
        }),
    decreases len - j,
{
    assert(list.at(j) < list.nodes@.len());
    assert(list.nodes@[list.at(j) as int].has_name());
    assert(!list.nodes@[list.at(j) as int].matches(target));
    if j + 1 < len {
        assert(list.nodes@[list.at(j) as int].next != list.first);
        assert(list.at(j + 1) == list.nodes@[list.at(j) as int].next);
        lemma_walk_exhausts(list, len, target, j + 1, (budget - 1) as nat);
    }
}

/// A walk never examines more descriptors than its budget.
pub proof fn lemma_walk_within_budget(
    nodes: Seq<ModuleDescriptor>,
    first: usize,
    cur: usize,
    budget: nat,
    target: u32,
)
    ensures
        walk(nodes, first, cur, budget, target).visited <= budget,
    decreases budget,
{
    if budget > 0 && cur < nodes.len() {
        lemma_walk_within_budget(nodes, first, nodes[cur as int].next, (budget - 1) as nat, target);
    }
}

/// Whatever the links are, the search examines at most as many descriptors
/// as the table holds.
pub proof fn lemma_search_is_bounded(list: ModuleList, target: u32)
    ensures
        list.locate(target).visited <= list.nodes@.len(),
{
    lemma_walk_within_budget(list.nodes@, list.first, list.first, list.nodes@.len(), target);
}

/// In a ring, the search returns the base address of the first module on the
/// walk whose name has the wanted fingerprint, after examining that module
/// and those before it.
pub proof fn lemma_search_finds_module(list: ModuleList, len: nat, target: u32, k: nat)
    requires
        list.is_ring(len),
        list.ring_has_names(len),
        k < len,
        list.nodes@[list.at(k) as int].matches(target),
        forall|m: nat| m < k ==> !list.nodes@[#[trigger] list.at(m) as int].matches(target),
    ensures
        list.locate(target).found == Ok::<usize, ResolveError>(list.at(k)),
        list.locate(target).visited == k + 1,
        list.module_base(target) == Ok::<u64, ResolveError>(list.nodes@[list.at(k) as int].base),
{
    lemma_ring_fits(list, len);
    lemma_walk_reaches(list, len, target, 0, k, list.nodes@.len());
}

/// In a ring of which no module has the wanted fingerprint, the search
/// examines each module of the ring once and reports that there is none.
pub proof fn lemma_search_exhausts_ring(list: ModuleList, len: nat, target: u32)
    requires
        list.is_ring(len),
        list.ring_has_names(len),
        forall|m: nat| m < len ==> !list.nodes@[#[trigger] list.at(m) as int].matches(target),
    ensures
        list.locate(target).found == Err::<usize, ResolveError>(ResolveError::ModuleNotFound),
        list.locate(target).visited == len,
        len <= list.nodes@.len(),
{
    lemma_ring_fits(list, len);
    lemma_walk_exhausts(list, len, target, 0, list.nodes@.len());
}

} // verus!
