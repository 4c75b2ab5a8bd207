//! Dependency graph of a workspace and its publish tiers.
//!
//! Packages are referred to by their index in the workspace. An edge leads
//! from a package to each package it depends on. The tier of a package is
//! the length of the longest chain of dependencies below it, so tier 0 holds
//! the packages without internal dependencies and every package follows all
//! of its dependencies.

use vstd::prelude::*;
use vstd::string::*;
use crate::error::WorkspaceError;
use crate::text::texts;

verus! {

/// One package of the workspace.
#[derive(Debug)]
pub struct PackageInfo {
    /// Package name.
    pub name: String,
    /// Indices of the workspace packages this one depends on.
    pub dependencies: Vec<usize>,
}

/// The packages of a workspace and the dependencies among them.
#[derive(Debug)]
pub struct WorkspaceInfo {
    /// Packages in workspace order.
    pub packages: Vec<PackageInfo>,
}

impl WorkspaceInfo {
    /// For each package, the packages it depends on.
    pub open spec fn edges(self) -> Seq<Seq<usize>> {
        Seq::new(self.packages@.len(), |p: int| self.packages@[p].dependencies@)
    }

    /// The package names, by index.
    pub open spec fn names(self) -> Seq<Seq<char>> {
        Seq::new(self.packages@.len(), |p: int| self.packages@[p].name@)
    }
}

/// The dependency lists of a vector of vectors.
pub open spec fn adjacency(deps: Seq<Vec<usize>>) -> Seq<Seq<usize>> {
    Seq::new(deps.len(), |p: int| deps[p]@)
}

/// Every dependency names a package of the workspace.
pub open spec fn edges_in_range(deps: Seq<Seq<usize>>) -> bool {
    forall|p: int, j: int|
        0 <= p < deps.len() && 0 <= j < deps[p].len() ==> (#[trigger] deps[p][j]) < deps.len()
}

/// Package `p` depends directly on package `d`.
pub open spec fn depends_on(deps: Seq<Seq<usize>>, p: usize, d: usize) -> bool {
    p < deps.len() && deps[p as int].contains(d)
}

/// `walk` is a non-empty chain of packages, each depending on the next and
/// the last depending on the first.
pub open spec fn is_closed_walk(deps: Seq<Seq<usize>>, walk: Seq<usize>) -> bool {
    &&& walk.len() > 0
    &&& forall|i: int| 0 <= i < walk.len() - 1 ==> depends_on(deps, #[trigger] walk[i], walk[i + 1])
    &&& depends_on(deps, walk[walk.len() - 1], walk[0])
}

/// `cycle` is a closed walk that visits no package twice.
pub open spec fn is_cycle(deps: Seq<Seq<usize>>, cycle: Seq<usize>) -> bool {
    is_closed_walk(deps, cycle) && cycle.no_duplicates()
}

/// The graph has a dependency cycle.
pub open spec fn has_cycle(deps: Seq<Seq<usize>>) -> bool {
    exists|walk: Seq<usize>| is_closed_walk(deps, walk)
}

/// All of `ds` have a tier below `t`.
pub open spec fn all_below(ds: Seq<usize>, tier_of: Seq<usize>, t: int) -> bool {
    forall|j: int| 0 <= j < ds.len() ==> tier_of[(#[trigger] ds[j]) as int] < t
}

/// `tier_of` puts every package strictly above its dependencies, and no
/// higher than that requires.
pub open spec fn is_layered(deps: Seq<Seq<usize>>, tier_of: Seq<usize>) -> bool {
    &&& tier_of.len() == deps.len()
    &&& forall|p: int, j: int|
        0 <= p < deps.len() && 0 <= j < deps[p].len() ==> tier_of[(#[trigger] deps[p][j]) as int]
            < tier_of[p]
    &&& forall|p: int, t: int|
        0 <= p < deps.len() && 0 <= t && #[trigger] all_below(deps[p], tier_of, t) ==> tier_of[p]
            <= t
}

/// `tiers` lists, tier by tier and in ascending package order, exactly the
/// packages that `tier_of` assigns to each tier, and no tier is empty.
pub open spec fn lists_tiers(tiers: Seq<Seq<usize>>, tier_of: Seq<usize>) -> bool {
    &&& forall|p: int|
        0 <= p < tier_of.len() ==> (#[trigger] tier_of[p]) < tiers.len() && tiers[tier_of[p] as int].contains(
            p as usize,
        )
    &&& forall|t: int, j: int|
        0 <= t < tiers.len() && 0 <= j < tiers[t].len() ==> (#[trigger] tiers[t][j])
            < tier_of.len() && tier_of[tiers[t][j] as int] == t
    &&& forall|t: int, i: int, j: int|
        0 <= t < tiers.len() && 0 <= i < j < tiers[t].len() ==> tiers[t][i] < tiers[t][j]
    &&& forall|t: int| 0 <= t < tiers.len() ==> (#[trigger] tiers[t]).len() > 0
}

/// Package `d` has been placed in a tier below `k`.
pub open spec fn placed_before(rank: Seq<Option<usize>>, d: usize, k: int) -> bool {
    d < rank.len() && rank[d as int] is Some && rank[d as int].unwrap() < k
}

/// All of `ds` have been placed in tiers below `k`.
pub open spec fn all_placed_before(rank: Seq<Option<usize>>, ds: Seq<usize>, k: int) -> bool {
    forall|j: int| 0 <= j < ds.len() ==> placed_before(rank, #[trigger] ds[j], k)
}

/// How many packages have no tier yet.
pub open spec fn unplaced_count(rank: Seq<Option<usize>>) -> nat
    decreases rank.len(),
{
    if rank.len() == 0 {
        0
    } else {
        unplaced_count(rank.drop_last()) + if rank.last() is None {
            1nat
        } else {
            0nat
        }
    }
}

/// Placing one unplaced package lowers the count of unplaced packages by one.
pub proof fn lemma_place_one(rank: Seq<Option<usize>>, p: int, v: usize)
    requires
        0 <= p < rank.len(),
        rank[p] is None,
    ensures
        unplaced_count(rank.update(p, Some(v))) + 1 == unplaced_count(rank),
    decreases rank.len(),
{
    let placed = rank.update(p, Some(v));
    if p == rank.len() - 1 {
        assert(placed.drop_last() =~= rank.drop_last());
    } else {
        assert(placed.drop_last() =~= rank.drop_last().update(p, Some(v)));
        lemma_place_one(rank.drop_last(), p, v);
    }
}

/// Along a chain of dependencies the tier falls by at least one per step.
proof fn lemma_walk_descends(deps: Seq<Seq<usize>>, tier_of: Seq<usize>, walk: Seq<usize>, i: int)
    requires
        edges_in_range(deps),
        is_layered(deps, tier_of),
        is_closed_walk(deps, walk),
        0 <= i < walk.len(),
    ensures
        walk[i] < deps.len(),
        tier_of[walk[i] as int] + i <= tier_of[walk[0] as int],
    decreases i,
{
    if i > 0 {
        lemma_walk_descends(deps, tier_of, walk, i - 1);
        let p = walk[i - 1];
        assert(depends_on(deps, p, walk[i - 1 + 1]));
        let j = choose|j: int| 0 <= j < deps[p as int].len() && deps[p as int][j] == walk[i];
        assert(deps[p as int][j] < deps.len());
    } else {
        if walk.len() == 1 {
            assert(depends_on(deps, walk[walk.len() - 1], walk[0]));
        } else {
            assert(depends_on(deps, walk[0], walk[0int + 1]));
        }
    }
}

/// A graph whose packages can be layered has no dependency cycle.
pub proof fn lemma_layered_is_acyclic(deps: Seq<Seq<usize>>, tier_of: Seq<usize>)
    requires
        edges_in_range(deps),
        is_layered(deps, tier_of),
    ensures
        !has_cycle(deps),
{
    if has_cycle(deps) {
        let walk = choose|walk: Seq<usize>| is_closed_walk(deps, walk);
        let last = walk.len() - 1;
        lemma_walk_descends(deps, tier_of, walk, last);
        lemma_walk_descends(deps, tier_of, walk, 0);
        let p = walk[last];
        let j = choose|j: int| 0 <= j < deps[p as int].len() && deps[p as int][j] == walk[0];
        assert(tier_of[deps[p as int][j] as int] < tier_of[p as int]);
    }
}

/// A package without dependencies lies in tier 0.
pub proof fn lemma_no_dependencies_tier_zero(deps: Seq<Seq<usize>>, tier_of: Seq<usize>, p: int)
    requires
        is_layered(deps, tier_of),
        0 <= p < deps.len(),
        deps[p].len() == 0,
    ensures
        tier_of[p] == 0,
{
    assert(all_below(deps[p], tier_of, 0));
}

/// Of two layerings of one graph, the second puts no package higher than
/// the first.
proof fn lemma_layering_minimal(deps: Seq<Seq<usize>>, a: Seq<usize>, b: Seq<usize>, p: int)
    requires
        edges_in_range(deps),
        is_layered(deps, a),
        is_layered(deps, b),
        0 <= p < deps.len(),
    ensures
        b[p] <= a[p],
    decreases a[p],
{
    assert forall|j: int| 0 <= j < deps[p].len() implies b[(#[trigger] deps[p][j]) as int] < a[p] by {
        let d = deps[p][j];
        assert(d < deps.len());
        assert(a[d as int] < a[p]);
        lemma_layering_minimal(deps, a, b, d as int);
    }
    assert(all_below(deps[p], b, a[p] as int));
}

/// A graph has at most one layering: the tier of every package is fixed by
/// the dependencies alone.
pub proof fn lemma_layering_unique(deps: Seq<Seq<usize>>, a: Seq<usize>, b: Seq<usize>)
    requires
        edges_in_range(deps),
        is_layered(deps, a),
        is_layered(deps, b),
    ensures
        a == b,
{
    assert forall|p: int| 0 <= p < deps.len() implies a[p] == b[p] by {
        lemma_layering_minimal(deps, a, b, p);
        lemma_layering_minimal(deps, b, a, p);
    }
    assert(a =~= b);
}

/// What holds of the tiers given out before round `k`: every placed package
/// lies below `k` and above its dependencies, and every package that could
/// have been placed in a round below `k` has been.
pub open spec fn settled(deps: Seq<Seq<usize>>, rank: Seq<Option<usize>>, k: int) -> bool {
    &&& rank.len() == deps.len()
    &&& forall|p: int| 0 <= p < rank.len() && (#[trigger] rank[p]) is Some ==> rank[p].unwrap() < k
    &&& forall|p: int|
        0 <= p < rank.len() && (#[trigger] rank[p]) is Some ==> all_placed_before(
            rank,
            deps[p],
            rank[p].unwrap() as int,
        )
    &&& forall|p: int, t: int|
        0 <= p < rank.len() && 0 <= t < k && #[trigger] all_placed_before(rank, deps[p], t)
            ==> rank[p] is Some && rank[p].unwrap() <= t
}

/// What holds in round `k` once the packages below `i` have been looked at.
pub open spec fn scanning(deps: Seq<Seq<usize>>, rank: Seq<Option<usize>>, k: int, i: int) -> bool {
    &&& rank.len() == deps.len()
    &&& forall|p: int|
        0 <= p < rank.len() && (#[trigger] rank[p]) is Some ==> rank[p].unwrap() <= k && (
        rank[p].unwrap() == k ==> p < i)
    &&& forall|p: int|
        0 <= p < rank.len() && (#[trigger] rank[p]) is Some ==> all_placed_before(
            rank,
            deps[p],
            rank[p].unwrap() as int,
        )
    &&& forall|p: int, t: int|
        0 <= p < rank.len() && 0 <= t <= k && (t < k || p < i) && #[trigger] all_placed_before(
            rank,
            deps[p],
            t,
        ) ==> rank[p] is Some && rank[p].unwrap() <= t
}

/// Whether every package of `ds` has a tier below `k`.
fn deps_placed(ds: &Vec<usize>, rank: &Vec<Option<usize>>, k: usize) -> (r: bool)
    requires
        forall|j: int| 0 <= j < ds@.len() ==> (#[trigger] ds@[j]) < rank@.len(),
    ensures
        r == all_placed_before(rank@, ds@, k as int),
{
    let mut j: usize = 0;
    while j < ds.len()
        invariant
            j <= ds@.len(),
            forall|j: int| 0 <= j < ds@.len() ==> (#[trigger] ds@[j]) < rank@.len(),
            forall|m: int| 0 <= m < j ==> placed_before(rank@, #[trigger] ds@[m], k as int),
        decreases ds@.len() - j,
    {
        let d: usize = ds[j];
        match rank[d] {
            Some(t) => {
                if t >= k {
                    assert(!placed_before(rank@, ds@[j as int], k as int));
                    return false;
                }
            },
            None => {
                assert(!placed_before(rank@, ds@[j as int], k as int));
                return false;
            },
        }
        j = j + 1;
    }
    true
}

/// The first package without a tier, if there is one.
fn first_unplaced(rank: &Vec<Option<usize>>) -> (r: Option<usize>)
    ensures
        match r {
            Some(p) => p < rank@.len() && rank@[p as int] is None,
            None => forall|p: int| 0 <= p < rank@.len() ==> (#[trigger] rank@[p]) is Some,
        },
{
    let mut p: usize = 0;
    while p < rank.len()
        invariant
            p <= rank@.len(),
            forall|q: int| 0 <= q < p ==> (#[trigger] rank@[q]) is Some,
        decreases rank@.len() - p,
    {
        if rank[p].is_none() {
            return Some(p);
        }
        p = p + 1;
    }
    None
}

/// One round of the layering: gives tier `k` to every package that has none
/// yet and whose dependencies all lie below `k`, and lists them in ascending
/// order.
fn place_round(deps: &Vec<Vec<usize>>, rank: &mut Vec<Option<usize>>, k: usize) -> (cur: Vec<usize>)
    requires
        edges_in_range(adjacency(deps@)),
        settled(adjacency(deps@), old(rank)@, k as int),
    ensures
        settled(adjacency(deps@), final(rank)@, k + 1),
        forall|p: int|
            0 <= p < deps@.len() && (#[trigger] old(rank)@[p]) is Some ==> final(rank)@[p] == old(rank)@[p],
        forall|p: int|
            0 <= p < deps@.len() && old(rank)@[p] is None ==> (#[trigger] final(rank)@[p]) is None
                || final(rank)@[p] == Some(k),
        forall|j: int|
            0 <= j < cur@.len() ==> (#[trigger] cur@[j]) < deps@.len() && final(rank)@[cur@[j] as int]
                == Some(k),
        forall|i: int, j: int| 0 <= i < j < cur@.len() ==> cur@[i] < cur@[j],
        forall|p: int|
            0 <= p < deps@.len() && (#[trigger] final(rank)@[p]) == Some(k) ==> cur@.contains(
                p as usize,
            ),
        unplaced_count(final(rank)@) + cur@.len() == unplaced_count(old(rank)@),
{
    let ghost adj = adjacency(deps@);
    let ghost before = rank@;
    let n = deps.len();
    let mut cur: Vec<usize> = Vec::new();
    let mut i: usize = 0;
    while i < n
        invariant
            n == deps@.len(),
            adj == adjacency(deps@),
            edges_in_range(adj),
            i <= n,
            scanning(adj, rank@, k as int, i as int),
            forall|p: int| 0 <= p < n && (#[trigger] before[p]) is Some ==> rank@[p] == before[p],
            forall|p: int|
                0 <= p < n && before[p] is None ==> (#[trigger] rank@[p]) is None || rank@[p]
                    == Some(k),
            forall|j: int|
                0 <= j < cur@.len() ==> (#[trigger] cur@[j]) < i && rank@[cur@[j] as int] == Some(k),
            forall|a: int, b: int| 0 <= a < b < cur@.len() ==> cur@[a] < cur@[b],
            forall|p: int|
                0 <= p < n && (#[trigger] rank@[p]) == Some(k) ==> cur@.contains(p as usize),
            unplaced_count(rank@) + cur@.len() == unplaced_count(before),
        decreases n - i,
    {
        let ghost rank0 = rank@;
        let ghost cur0 = cur@;
        assert(adj[i as int] == deps@[i as int]@);
        assert forall|j: int| 0 <= j < deps@[i as int]@.len() implies (#[trigger] deps@[i as int]@[j])
            < rank@.len() by {
            assert(adj[i as int][j] < adj.len());
        }
        let unplaced = rank[i].is_none();
        if unplaced && deps_placed(&deps[i], rank, k) {
            rank.set(i, Some(k));
            cur.push(i);
            proof {
                let rank1 = rank@;
                lemma_place_one(rank0, i as int, k);
                assert forall|p: int| 0 <= p < rank1.len() && (#[trigger] rank1[p]) is Some implies
                    all_placed_before(rank1, adj[p], rank1[p].unwrap() as int) by {
                    if p == i {
                        assert(all_placed_before(rank0, adj[p], k as int));
                    } else {
                        assert(rank0[p] is Some);
                        assert(all_placed_before(rank0, adj[p], rank0[p].unwrap() as int));
                    }
                }
                assert forall|p: int, t: int|
                    0 <= p < rank1.len() && 0 <= t <= k && (t < k || p < i + 1)
                        && #[trigger] all_placed_before(rank1, adj[p], t) implies rank1[p] is Some
                    && rank1[p].unwrap() <= t by {
                    assert(all_placed_before(rank0, adj[p], t)) by {
                        assert forall|j: int| 0 <= j < adj[p].len() implies placed_before(
                            rank0,
                            #[trigger] adj[p][j],
                            t,
                        ) by {
                            assert(placed_before(rank1, adj[p][j], t));
                        }
                    }
                }
                assert forall|p: int| 0 <= p < n && (#[trigger] rank1[p]) == Some(k) implies cur@.contains(
                    p as usize,
                ) by {
                    if p == i {
                        assert(cur@[cur0.len() as int] == i);
                    } else {
                        assert(rank0[p] == Some(k));
                        let j = choose|j: int| 0 <= j < cur0.len() && cur0[j] == p as usize;
                        assert(cur@[j] == p as usize);
                    }
                }
            }
        } else {
            proof {
                assert forall|p: int, t: int|
                    0 <= p < rank0.len() && 0 <= t <= k && (t < k || p < i + 1)
                        && #[trigger] all_placed_before(rank0, adj[p], t) implies rank0[p] is Some
                    && rank0[p].unwrap() <= t by {
                    if p == i && t == k {
                        assert(!unplaced);
                    }
                }
            }
        }
        i = i + 1;
    }
    cur
}

/// In a graph where every unplaced package has an unplaced dependency, the
/// index of one such dependency among `ds`.
fn unplaced_dependency(ds: &Vec<usize>, rank: &Vec<Option<usize>>, k: usize) -> (j: usize)
    requires
        forall|j: int| 0 <= j < ds@.len() ==> (#[trigger] ds@[j]) < rank@.len(),
        forall|p: int| 0 <= p < rank@.len() && (#[trigger] rank@[p]) is Some ==> rank@[p].unwrap() < k,
        !all_placed_before(rank@, ds@, k as int),
    ensures
        j < ds@.len(),
        rank@[ds@[j as int] as int] is None,
{
    let mut j: usize = 0;
    while j < ds.len()
        invariant
            j <= ds@.len(),
            forall|j: int| 0 <= j < ds@.len() ==> (#[trigger] ds@[j]) < rank@.len(),
            forall|p: int|
                0 <= p < rank@.len() && (#[trigger] rank@[p]) is Some ==> rank@[p].unwrap() < k,
            forall|m: int| 0 <= m < j ==> placed_before(rank@, #[trigger] ds@[m], k as int),
        decreases ds@.len() - j,
    {
        let d: usize = ds[j];
        if rank[d].is_none() {
            return j;
        }
        j = j + 1;
    }
    proof {
        assert(all_placed_before(rank@, ds@, k as int));
    }
    j
}

/// Follows unplaced dependencies from `start` until a package comes up a
/// second time, and returns the packages from its first visit on.
fn find_cycle(deps: &Vec<Vec<usize>>, rank: &Vec<Option<usize>>, start: usize, k: usize) -> (cycle:
    Vec<usize>)
    requires
        edges_in_range(adjacency(deps@)),
        rank@.len() == deps@.len(),
        start < deps@.len(),
        rank@[start as int] is None,
        forall|p: int| 0 <= p < rank@.len() && (#[trigger] rank@[p]) is Some ==> rank@[p].unwrap() < k,
        forall|p: int|
            0 <= p < rank@.len() && (#[trigger] rank@[p]) is None ==> !all_placed_before(
                rank@,
                adjacency(deps@)[p],
                k as int,
            ),
    ensures
        is_cycle(adjacency(deps@), cycle@),
        forall|i: int| 0 <= i < cycle@.len() ==> (#[trigger] cycle@[i]) < deps@.len(),
{
    let ghost adj = adjacency(deps@);
    let n = deps.len();
    let mut seen: Vec<Option<usize>> = Vec::new();
    let mut m: usize = 0;
    while m < n
        invariant
            m <= n,
            seen@.len() == m,
            forall|p: int| 0 <= p < m ==> (#[trigger] seen@[p]) is None,
        decreases n - m,
    {
        seen.push(None);
        m = m + 1;
    }
    let mut path: Vec<usize> = Vec::new();
    path.push(start);
    seen.set(start, Some(0));
    let mut at: usize = start;
    loop
        invariant
            n == deps@.len(),
            adj == adjacency(deps@),
            edges_in_range(adj),
            rank@.len() == n,
            seen@.len() == n,
            forall|p: int|
                0 <= p < rank@.len() && (#[trigger] rank@[p]) is Some ==> rank@[p].unwrap() < k,
            forall|p: int|
                0 <= p < rank@.len() && (#[trigger] rank@[p]) is None ==> !all_placed_before(
                    rank@,
                    adj[p],
                    k as int,
                ),
            path@.len() >= 1,
            at == path@[path@.len() - 1],
            forall|i: int|
                0 <= i < path@.len() ==> (#[trigger] path@[i]) < n && rank@[path@[i] as int] is None
                    && seen@[path@[i] as int] == Some(i as usize),
            forall|p: int|
                0 <= p < n && (#[trigger] seen@[p]) is Some ==> seen@[p].unwrap() < path@.len()
                    && path@[seen@[p].unwrap() as int] == p,
            forall|i: int|
                0 <= i < path@.len() - 1 ==> depends_on(adj, #[trigger] path@[i], path@[i + 1]),
        decreases unplaced_count(seen@),
    {
        assert(adj[at as int] == deps@[at as int]@);
        assert forall|j: int| 0 <= j < deps@[at as int]@.len() implies (#[trigger] deps@[at as int]@[j])
            < rank@.len() by {
            assert(adj[at as int][j] < adj.len());
        }
        let ds = &deps[at];
        let j = unplaced_dependency(ds, rank, k);
        let d: usize = ds[j];
        assert(adj[at as int][j as int] == d);
        assert(depends_on(adj, at, d));
        match seen[d] {
            Some(first) => {
                let mut cycle: Vec<usize> = Vec::new();
                let mut i: usize = first;
                while i < path.len()
                    invariant
                        first <= i <= path@.len(),
                        cycle@ == path@.subrange(first as int, i as int),
                    decreases path@.len() - i,
                {
                    cycle.push(path[i]);
                    assert(cycle@ =~= path@.subrange(first as int, i + 1));
                    i = i + 1;
                }
                proof {
                    let c = cycle@;
                    assert(c.len() == path@.len() - first);
                    assert forall|i: int| 0 <= i < c.len() implies c[i] == path@[first + i] by {}
                    assert forall|i: int| 0 <= i < c.len() - 1 implies depends_on(
                        adj,
                        #[trigger] c[i],
                        c[i + 1],
                    ) by {
                        assert(depends_on(adj, path@[first + i], path@[first + i + 1]));
                    }
                    assert(c[c.len() - 1] == at);
                    assert(c[0] == d);
                    assert forall|a: int, b: int| 0 <= a < c.len() && 0 <= b < c.len() && a != b implies c[a]
                        != c[b] by {
                        assert(seen@[path@[first + a] as int] == Some((first + a) as usize));
                        assert(seen@[path@[first + b] as int] == Some((first + b) as usize));
                    }
                    assert forall|i: int| 0 <= i < c.len() implies (#[trigger] c[i]) < deps@.len() by {
                        assert(path@[first + i] < n);
                    }
                }
                return cycle;
            },
            None => {
                proof {
                    lemma_place_one(seen@, d as int, path@.len() as usize);
                }
                let ghost path0 = path@;
                let at_index: usize = path.len();
                seen.set(d, Some(at_index));
                path.push(d);
                at = d;
                proof {
                    assert forall|i: int| 0 <= i < path@.len() - 1 implies depends_on(
                        adj,
                        #[trigger] path@[i],
                        path@[i + 1],
                    ) by {
                        if i < path0.len() - 1 {
                            assert(depends_on(adj, path0[i], path0[i + 1]));
                        }
                    }
                }
            },
        }
    }
}

/// The publish order of a workspace: its packages grouped into tiers.
#[derive(Debug)]
pub struct TierPlan {
    tiers: Vec<Vec<usize>>,
    tier_of: Vec<usize>,
}

impl TierPlan {
    /// The tiers in publish order, each listing its packages.
    pub closed spec fn tiers(self) -> Seq<Seq<usize>> {
        adjacency(self.tiers@)
    }

    /// The tier of each package, by package index.
    pub closed spec fn ranks(self) -> Seq<usize> {
        self.tier_of@
    }

    /// The tiers list exactly the packages that `ranks` assigns to them.
    pub open spec fn wf(self) -> bool {
        lists_tiers(self.tiers(), self.ranks())
    }

    /// Number of tiers.
    pub fn tier_count(&self) -> (r: usize)
        ensures
            r == self.tiers().len(),
    {
        self.tiers.len()
    }

    /// Number of packages in the plan.
    pub fn package_count(&self) -> (r: usize)
        ensures
            r == self.ranks().len(),
    {
        self.tier_of.len()
    }

    /// The packages of tier `t`, in ascending order.
    pub fn tier(&self, t: usize) -> (r: &Vec<usize>)
        requires
            t < self.tiers().len(),
        ensures
            r@ == self.tiers()[t as int],
    {
        &self.tiers[t]
    }

    /// All tiers, in publish order.
    pub fn all_tiers(&self) -> (r: &Vec<Vec<usize>>)
        ensures
            adjacency(r@) == self.tiers(),
    {
        &self.tiers
    }

    /// The tier of package `p`.
    pub fn tier_of(&self, p: usize) -> (r: usize)
        requires
            p < self.ranks().len(),
        ensures
            r == self.ranks()[p as int],
    {
        self.tier_of[p]
    }
}

/// Layers the graph round by round. Where a round places nothing while
/// packages are left, these lie on or above a cycle, and one cycle is returned.
#[verifier::loop_isolation(false)]
fn layer(deps: &Vec<Vec<usize>>) -> (r: Result<TierPlan, Vec<usize>>)
    requires
        edges_in_range(adjacency(deps@)),
    ensures
        match r {
            Ok(plan) => plan.wf() && is_layered(adjacency(deps@), plan.ranks()),
            Err(cycle) => is_cycle(adjacency(deps@), cycle@) && forall|i: int|
                0 <= i < cycle@.len() ==> (#[trigger] cycle@[i]) < deps@.len(),
        },
{
    let ghost adj = adjacency(deps@);
    let n = deps.len();
    let mut rank: Vec<Option<usize>> = Vec::new();
    let mut m: usize = 0;
    while m < n
        invariant
            m <= n,
            rank@.len() == m,
            forall|p: int| 0 <= p < m ==> (#[trigger] rank@[p]) is None,
        decreases n - m,
    {
        rank.push(None);
        m = m + 1;
    }
    let mut tiers: Vec<Vec<usize>> = Vec::new();
    let mut pending = first_unplaced(&rank);
    while pending.is_some()
        invariant
            n == deps@.len(),
            adj == adjacency(deps@),
            edges_in_range(adj),
            settled(adj, rank@, tiers@.len() as int),
            match pending {
                Some(p) => p < n && rank@[p as int] is None,
                None => forall|p: int| 0 <= p < n ==> (#[trigger] rank@[p]) is Some,
            },
            forall|t: int, j: int|
                0 <= t < tiers@.len() && 0 <= j < tiers@[t]@.len() ==> (#[trigger] tiers@[t]@[j]) < n
                    && rank@[tiers@[t]@[j] as int] is Some && rank@[tiers@[t]@[j] as int].unwrap()
                    == t,
            forall|t: int, i: int, j: int|
                0 <= t < tiers@.len() && 0 <= i < j < tiers@[t]@.len() ==> tiers@[t]@[i]
                    < tiers@[t]@[j],
            forall|t: int| 0 <= t < tiers@.len() ==> (#[trigger] tiers@[t])@.len() > 0,
            forall|p: int|
                0 <= p < n && (#[trigger] rank@[p]) is Some ==> tiers@[rank@[p].unwrap() as int]@.contains(
                    p as usize,
                ),
        decreases unplaced_count(rank@),
    {
        let start = pending.unwrap();
        let k = tiers.len();
        let ghost rank0 = rank@;
        let ghost tiers0 = tiers@;
        let cur = place_round(deps, &mut rank, k);
        if cur.len() == 0 {
            proof {
                assert forall|p: int| 0 <= p < n && (#[trigger] rank@[p]) is Some implies rank@[p].unwrap()
                    < k by {
                    if rank@[p] == Some(k) {
                        assert(cur@.contains(p as usize));
                    }
                }
                assert(rank@[start as int] is None) by {
                    if rank@[start as int] == Some(k) {
                        assert(cur@.contains(start));
                    }
                }
            }
            let cycle = find_cycle(deps, &rank, start, k);
            return Err(cycle);
        }
        tiers.push(cur);
        proof {
            assert forall|t: int, j: int| 0 <= t < tiers@.len() && 0 <= j < tiers@[t]@.len() implies (
            #[trigger] tiers@[t]@[j]) < n && rank@[tiers@[t]@[j] as int] is Some
                && rank@[tiers@[t]@[j] as int].unwrap() == t by {
                if t < k {
                    assert(tiers@[t] == tiers0[t]);
                    assert(rank0[tiers0[t]@[j] as int] is Some);
                }
            }
            assert forall|t: int, i: int, j: int|
                0 <= t < tiers@.len() && 0 <= i < j < tiers@[t]@.len() implies tiers@[t]@[i]
                < tiers@[t]@[j] by {
                if t < k {
                    assert(tiers@[t] == tiers0[t]);
                }
            }
            assert forall|t: int| 0 <= t < tiers@.len() implies (#[trigger] tiers@[t])@.len() > 0 by {
                if t < k {
                    assert(tiers@[t] == tiers0[t]);
                }
            }
            assert forall|p: int|
                0 <= p < n && (#[trigger] rank@[p]) is Some implies tiers@[rank@[p].unwrap() as int]@.contains(
                p as usize,
            ) by {
                if rank0[p] is Some {
                    assert(tiers@[rank0[p].unwrap() as int] == tiers0[rank0[p].unwrap() as int]);
                } else {
                    assert(rank@[p] == Some(k));
                    assert(cur@.contains(p as usize));
                }
            }
        }
        pending = first_unplaced(&rank);
    }
    let mut tier_of: Vec<usize> = Vec::new();
    let mut p: usize = 0;
    while p < n
        invariant
            p <= n,
            rank@.len() == n,
            tier_of@.len() == p,
            forall|q: int| 0 <= q < n ==> (#[trigger] rank@[q]) is Some,
            forall|q: int| 0 <= q < p ==> rank@[q] == Some(#[trigger] tier_of@[q]),
        decreases n - p,
    {
        let t: usize = rank[p].unwrap();
        tier_of.push(t);
        p = p + 1;
    }
    let ghost listed = tiers@;
    let plan = TierPlan { tiers, tier_of };
    proof {
        let ranks = plan.ranks();
        let k = plan.tiers().len() as int;
        assert(ranks.len() == adj.len());
        assert forall|t: int, j: int|
            0 <= t < plan.tiers().len() && 0 <= j < plan.tiers()[t].len() implies (
        #[trigger] plan.tiers()[t][j]) < ranks.len() && ranks[plan.tiers()[t][j] as int] == t by {
            assert(plan.tiers()[t] == listed[t]@);
            assert(rank@[listed[t]@[j] as int] is Some);
        }
        assert forall|t: int, i: int, j: int|
            0 <= t < plan.tiers().len() && 0 <= i < j < plan.tiers()[t].len() implies plan.tiers()[t][i]
            < plan.tiers()[t][j] by {
            assert(plan.tiers()[t] == listed[t]@);
        }
        assert forall|t: int| 0 <= t < plan.tiers().len() implies (#[trigger] plan.tiers()[t]).len()
            > 0 by {
            assert(plan.tiers()[t] == listed[t]@);
        }
        assert forall|p: int, j: int| 0 <= p < adj.len() && 0 <= j < adj[p].len() implies ranks[(
        #[trigger] adj[p][j]) as int] < ranks[p] by {
            assert(rank@[p] is Some);
            assert(all_placed_before(rank@, adj[p], rank@[p].unwrap() as int));
            assert(placed_before(rank@, adj[p][j], rank@[p].unwrap() as int));
        }
        assert forall|p: int, t: int|
            0 <= p < adj.len() && 0 <= t && #[trigger] all_below(adj[p], ranks, t) implies ranks[p]
            <= t by {
            assert(rank@[p] is Some);
            if t < k {
                assert(all_placed_before(rank@, adj[p], t)) by {
                    assert forall|j: int| 0 <= j < adj[p].len() implies placed_before(
                        rank@,
                        #[trigger] adj[p][j],
                        t,
                    ) by {
                        assert(adj[p][j] < adj.len());
                        assert(rank@[adj[p][j] as int] is Some);
                    }
                }
            }
        }
        assert forall|p: int| 0 <= p < ranks.len() implies (#[trigger] ranks[p]) < plan.tiers().len()
            && plan.tiers()[ranks[p] as int].contains(p as usize) by {
            assert(rank@[p] is Some);
            assert(plan.tiers()[ranks[p] as int] == listed[ranks[p] as int]@);
        }
    }
    Ok(plan)
}

/// The dependency graph of a workspace, known to be free of cycles.
#[derive(Debug)]
pub struct DependencyGraph {
    deps: Vec<Vec<usize>>,
}

impl DependencyGraph {
    /// For each package, the packages it depends on.
    pub closed spec fn edges(self) -> Seq<Seq<usize>> {
        adjacency(self.deps@)
    }

    /// Every edge names a package, and no chain of dependencies closes.
    pub open spec fn wf(self) -> bool {
        edges_in_range(self.edges()) && !has_cycle(self.edges())
    }

    /// Number of packages.
    pub fn package_count(&self) -> (r: usize)
        ensures
            r == self.edges().len(),
    {
        self.deps.len()
    }

    /// The packages that package `p` depends on.
    pub fn dependencies(&self, p: usize) -> (r: &Vec<usize>)
        requires
            p < self.edges().len(),
        ensures
            r@ == self.edges()[p as int],
    {
        &self.deps[p]
    }

    /// Builds the graph of a workspace.
    ///
    /// Fails with `InvalidStructure` exactly when a dependency names no
    /// package of the workspace, and with `CircularDependency` exactly when
    /// the dependencies close a cycle; the error then names, in order, the
    /// packages of one cycle, each once.
    #[verifier::loop_isolation(false)]
    pub fn build(workspace: &WorkspaceInfo) -> (r: Result<DependencyGraph, WorkspaceError>)
        ensures
            r is Ok <==> edges_in_range(workspace.edges()) && !has_cycle(workspace.edges()),
            edges_in_range(workspace.edges()) && has_cycle(workspace.edges()) ==> r matches Err(
                WorkspaceError::CircularDependency { .. },
            ),
            match r {
                Ok(graph) => graph.wf() && graph.edges() == workspace.edges(),
                Err(WorkspaceError::InvalidStructure { reason }) => !edges_in_range(workspace.edges())
                    && reason@ == "a dependency names no package of the workspace"@,
                Err(WorkspaceError::CircularDependency { packages }) => edges_in_range(
                    workspace.edges(),
                ) && exists|cycle: Seq<usize>|
                    is_cycle(workspace.edges(), cycle) && names_of(workspace.names(), cycle, texts(packages@)),
                Err(_) => false,
            },
    {
        let n = workspace.packages.len();
        let ghost adj = workspace.edges();
        let mut deps: Vec<Vec<usize>> = Vec::new();
        let mut p: usize = 0;
        while p < n
            invariant
                p <= n,
                n == workspace.packages@.len(),
                adj == workspace.edges(),
                deps@.len() == p,
                forall|q: int| 0 <= q < p ==> (#[trigger] deps@[q])@ == adj[q],
                forall|q: int, j: int|
                    0 <= q < p && 0 <= j < adj[q].len() ==> (#[trigger] adj[q][j]) < n,
            decreases n - p,
        {
            let source = &workspace.packages[p].dependencies;
            let mut row: Vec<usize> = Vec::new();
            let mut j: usize = 0;
            while j < source.len()
                invariant
                    j <= source@.len(),
                    p < n,
                    adj.len() == n,
                    source@ == adj[p as int],
                    row@ == source@.subrange(0, j as int),
                    forall|m: int| 0 <= m < j ==> (#[trigger] source@[m]) < n,
                decreases source@.len() - j,
            {
                let d: usize = source[j];
                if d >= n {
                    assert(adj[p as int][j as int] >= adj.len());
                    return Err(
                        WorkspaceError::InvalidStructure {
                            reason: String::from_str("a dependency names no package of the workspace"),
                        },
                    );
                }
                row.push(d);
                assert(row@ =~= source@.subrange(0, j + 1));
                j = j + 1;
            }
            assert(row@ =~= adj[p as int]);
            deps.push(row);
            p = p + 1;
        }
        assert(adjacency(deps@) =~= adj);
        match layer(&deps) {
            Ok(plan) => {
                proof {
                    lemma_layered_is_acyclic(adj, plan.ranks());
                }
                Ok(DependencyGraph { deps })
            },
            Err(cycle) => {
                let mut packages: Vec<String> = Vec::new();
                let mut i: usize = 0;
                while i < cycle.len()
                    invariant
                        i <= cycle@.len(),
                        n == workspace.packages@.len(),
                        packages@.len() == i,
                        forall|m: int| 0 <= m < cycle@.len() ==> (#[trigger] cycle@[m]) < n,
                        forall|m: int|
                            0 <= m < i ==> (#[trigger] packages@[m])@
                                == workspace.packages@[cycle@[m] as int].name@,
                    decreases cycle@.len() - i,
                {
                    let name = workspace.packages[cycle[i]].name.clone();
                    packages.push(name);
                    i = i + 1;
                }
                proof {
                    assert(names_of(workspace.names(), cycle@, texts(packages@)));
                }
                Err(WorkspaceError::CircularDependency { packages })
            },
        }
    }

    /// The publish order: tier *k* holds every package whose dependencies
    /// all lie in tiers below *k* and that lies in none of them itself.
    /// Within a tier the packages stand in workspace order.
    pub fn publish_order(&self) -> (r: Result<TierPlan, WorkspaceError>)
        requires
            self.wf(),
        ensures
            r is Ok,
            r.unwrap().wf(),
            is_layered(self.edges(), r.unwrap().ranks()),
    {
        match layer(&self.deps) {
            Ok(plan) => Ok(plan),
            Err(cycle) => {
                proof {
                    assert(is_closed_walk(self.edges(), cycle@));
                }
                Err(WorkspaceError::CircularDependency { packages: Vec::new() })
            },
        }
    }
}

/// `names` holds, in order, the names of the packages `members`.
pub open spec fn names_of(all: Seq<Seq<char>>, members: Seq<usize>, names: Seq<Seq<char>>) -> bool {
    &&& names.len() == members.len()
    &&& forall|i: int|
        0 <= i < members.len() ==> members[i] < all.len() && (#[trigger] names[i]) == all[members[i] as int]
}

} // verus!
