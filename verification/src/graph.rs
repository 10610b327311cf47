//! The structural validator: a set of resolved document chains is
//! assembled into a directed graph over DIDs, and trusted only if that
//! graph is a rooted tree — no document with two distinct attesting
//! parents, and no cycle in the controller relation.  This is a cheap
//! structural filter that runs before any cryptographic verification, so
//! a malformed shape short-circuits the expensive signature checks.
//!
//! The check works on an explicit parent map: the single-parent property
//! is checked edge by edge, and acyclicity by walking the parent relation
//! upward with an explicit step bound.

use vstd::prelude::*;

use crate::document::str_eq;
use crate::document::Document;
use crate::errors::GraphError;

verus! {

/// One controller edge: `child`'s document is attested by `parent`.
#[derive(Debug)]
pub struct Edge {
    pub child: String,
    pub parent: String,
}

pub open spec fn edge_views(edges: Seq<Edge>) -> Seq<(Seq<char>, Seq<char>)> {
    edges.map_values(|e: Edge| (e.child@, e.parent@))
}

/// The parent the graph records for `child`: the first edge listed for
/// it.  Further edges for the same child must agree with this one.
pub open spec fn parent_of_from(
    edges: Seq<(Seq<char>, Seq<char>)>,
    child: Seq<char>,
    i: int,
) -> Option<Seq<char>>
    decreases edges.len() - i,
{
    if i < 0 || i >= edges.len() {
        None
    } else if edges[i].0 == child {
        Some(edges[i].1)
    } else {
        parent_of_from(edges, child, i + 1)
    }
}

pub open spec fn parent_of(edges: Seq<(Seq<char>, Seq<char>)>, child: Seq<char>) -> Option<
    Seq<char>,
> {
    parent_of_from(edges, child, 0)
}

/// No node has two distinct recorded parents: every edge agrees with the
/// first edge listed for its child.
pub open spec fn single_parented(edges: Seq<(Seq<char>, Seq<char>)>) -> bool {
    forall|i: int|
        0 <= i < edges.len() ==> parent_of(edges, (#[trigger] edges[i]).0) == Some(edges[i].1)
}

/// Climbing parents from `d` reaches a parentless node within `fuel`
/// steps.
pub open spec fn reaches_top(
    edges: Seq<(Seq<char>, Seq<char>)>,
    d: Seq<char>,
    fuel: nat,
) -> bool
    decreases fuel,
{
    match parent_of(edges, d) {
        None => true,
        Some(p) => fuel > 0 && reaches_top(edges, p, (fuel - 1) as nat),
    }
}

/// The graph is a rooted tree: single parents, and every parent walk
/// tops out within as many steps as there are edges — which a cycle in
/// the parent relation makes impossible.
pub open spec fn spec_is_tree(edges: Seq<(Seq<char>, Seq<char>)>) -> bool {
    &&& single_parented(edges)
    &&& forall|i: int|
        0 <= i < edges.len() ==> reaches_top(edges, (#[trigger] edges[i]).0, edges.len() as nat)
}

/// The controller edges of one chain of documents: each document's DID is
/// a child of the next document's DID.
pub open spec fn edges_of_tree(t: Seq<Document>) -> Seq<(Seq<char>, Seq<char>)>
    decreases t.len(),
{
    if t.len() <= 1 {
        Seq::empty()
    } else {
        edges_of_tree(t.drop_last()) + seq![(t[t.len() - 2].did@, t.last().did@)]
    }
}

/// All controller edges of a list of chains, in order.
pub open spec fn edges_of(trees: Seq<Vec<Document>>) -> Seq<(Seq<char>, Seq<char>)>
    decreases trees.len(),
{
    if trees.len() == 0 {
        Seq::empty()
    } else {
        edges_of(trees.drop_last()) + edges_of_tree(trees.last()@)
    }
}

/// A directed graph over document DIDs, one edge per controller
/// relationship, validated to be a tree before any trust decision.
#[derive(Debug)]
pub struct TrustchainGraph {
    pub edges: Vec<Edge>,
}

/// The first recorded parent of `child`, as executable code.
fn first_parent(edges: &Vec<Edge>, child: &str) -> (r: Option<String>)
    ensures
        r is Some <==> parent_of(edge_views(edges@), child@) is Some,
        r matches Some(p) ==> parent_of(edge_views(edges@), child@) == Some(p@),
{
    let mut i: usize = 0;
    while i < edges.len()
        invariant
            i <= edges@.len(),
            parent_of(edge_views(edges@), child@) == parent_of_from(
                edge_views(edges@),
                child@,
                i as int,
            ),
        decreases edges@.len() - i,
    {
        proof {
            assert(edge_views(edges@)[i as int] == (edges@[i as int].child@,
            edges@[i as int].parent@));
        }
        if str_eq(edges[i].child.as_str(), child) {
            return Some(edges[i].parent.clone());
        }
        i += 1;
    }
    None
}

/// Whether climbing parents from `d` reaches a parentless node within
/// `fuel` steps.
fn climbs_out(edges: &Vec<Edge>, d: &str, fuel: usize) -> (r: bool)
    ensures
        r == reaches_top(edge_views(edges@), d@, fuel as nat),
{
    let mut current: String = d.to_owned();
    let mut remaining: usize = fuel;
    loop
        invariant
            reaches_top(edge_views(edges@), current@, remaining as nat) == reaches_top(
                edge_views(edges@),
                d@,
                fuel as nat,
            ),
        decreases remaining,
    {
        match first_parent(edges, current.as_str()) {
            None => {
                return true;
            },
            Some(p) => {
                if remaining == 0 {
                    return false;
                }
                remaining = remaining - 1;
                current = p;
            },
        }
    }
}

impl TrustchainGraph {
    /// Read chains from a list of trees and build the graph, rejecting
    /// any shape that is not a tree.
    pub fn new(trees: &Vec<Vec<Document>>) -> (r: Result<TrustchainGraph, GraphError>)
        ensures
            r is Ok <==> spec_is_tree(edges_of(trees@)),
            r matches Ok(g) ==> edge_views(g.edges@) == edges_of(trees@),
            r matches Err(e) ==> e == GraphError::NotATree,
    {
        let mut edges: Vec<Edge> = Vec::new();
        let mut t: usize = 0;
        proof {
            assert(edge_views(edges@) =~= edges_of(trees@.take(0)));
        }
        while t < trees.len()
            invariant
                t <= trees@.len(),
                edge_views(edges@) == edges_of(trees@.take(t as int)),
            decreases trees@.len() - t,
        {
            let tree = &trees[t];
            let mut i: usize = 0;
            proof {
                assert(tree@.take(0) =~= Seq::<Document>::empty());
                assert(edge_views(edges@) + edges_of_tree(tree@.take(0)) =~= edge_views(edges@));
            }
            while i < tree.len()
                invariant
                    i <= tree@.len(),
                    tree@ == trees@[t as int]@,
                    t < trees@.len(),
                    edge_views(edges@) == edges_of(trees@.take(t as int)) + edges_of_tree(
                        tree@.take(i as int),
                    ),
                decreases tree@.len() - i,
            {
                let ghost previous = edge_views(edges@);
                if i > 0 {
                    edges.push(
                        Edge { child: tree[i - 1].did.clone(), parent: tree[i].did.clone() },
                    );
                    proof {
                        assert(edge_views(edges@) =~= previous.push(
                            (tree@[i as int - 1].did@, tree@[i as int].did@),
                        ));
                        let upto = tree@.take(i as int + 1);
                        assert(upto.drop_last() =~= tree@.take(i as int));
                        assert(upto[upto.len() - 2] == tree@[i as int - 1]);
                        assert(upto.last() == tree@[i as int]);
                        assert(edges_of(trees@.take(t as int)) + edges_of_tree(upto)
                            =~= edges_of(trees@.take(t as int)) + edges_of_tree(
                            tree@.take(i as int),
                        ) + seq![(tree@[i as int - 1].did@, tree@[i as int].did@)]);
                    }
                } else {
                    proof {
                        assert(edges_of_tree(tree@.take(1)) =~= edges_of_tree(tree@.take(0)));
                        assert(edges_of(trees@.take(t as int)) + edges_of_tree(tree@.take(1))
                            =~= edges_of(trees@.take(t as int)) + edges_of_tree(tree@.take(0)));
                    }
                }
                i += 1;
            }
            proof {
                assert(tree@.take(tree@.len() as int) =~= tree@);
                assert(trees@.take(t as int + 1).drop_last() =~= trees@.take(t as int));
                assert(trees@.take(t as int + 1).last() == trees@[t as int]);
            }
            t += 1;
        }
        proof {
            assert(trees@.take(trees@.len() as int) =~= trees@);
        }
        let graph = TrustchainGraph { edges };
        match graph.validate() {
            Ok(_) => Ok(graph),
            Err(e) => Err(e),
        }
    }

    /// The structural tree check: every node has at most one recorded
    /// parent and the parent relation has no cycle.
    pub fn validate(&self) -> (r: Result<(), GraphError>)
        ensures
            r is Ok <==> spec_is_tree(edge_views(self.edges@)),
            r matches Err(e) ==> e == GraphError::NotATree,
    {
        let n = self.edges.len();
        let mut i: usize = 0;
        while i < n
            invariant
                n == self.edges@.len(),
                i <= n,
                forall|j: int|
                    0 <= j < i ==> parent_of(
                        edge_views(self.edges@),
                        (#[trigger] edge_views(self.edges@)[j]).0,
                    ) == Some(edge_views(self.edges@)[j].1),
            decreases n - i,
        {
            proof {
                assert(edge_views(self.edges@)[i as int] == (self.edges@[i as int].child@,
                self.edges@[i as int].parent@));
            }
            let p = match first_parent(&self.edges, self.edges[i].child.as_str()) {
                Some(p) => p,
                None => {
                    proof {
                        lemma_first_parent_exists(
                            edge_views(self.edges@),
                            self.edges@[i as int].child@,
                            0,
                            i as int,
                        );
                        assert(false);
                    }
                    return Err(GraphError::NotATree);
                },
            };
            if !str_eq(p.as_str(), self.edges[i].parent.as_str()) {
                return Err(GraphError::NotATree);
            }
            i += 1;
        }
        let mut k: usize = 0;
        while k < n
            invariant
                n == self.edges@.len(),
                k <= n,
                single_parented(edge_views(self.edges@)),
                forall|j: int|
                    0 <= j < k ==> reaches_top(
                        edge_views(self.edges@),
                        (#[trigger] edge_views(self.edges@)[j]).0,
                        edge_views(self.edges@).len() as nat,
                    ),
            decreases n - k,
        {
            proof {
                assert(edge_views(self.edges@)[k as int] == (self.edges@[k as int].child@,
                self.edges@[k as int].parent@));
            }
            if !climbs_out(&self.edges, self.edges[k].child.as_str(), n) {
                return Err(GraphError::NotATree);
            }
            k += 1;
        }
        Ok(())
    }

    /// The number of controller edges recorded.
    pub fn edge_count(&self) -> (n: usize)
        ensures
            n == self.edges@.len(),
    {
        self.edges.len()
    }

    /// The graph in graphviz DOT format.
    pub fn to_graphviz(&self) -> (r: String)
        ensures
            r@ == graphviz_of(edge_views(self.edges@)),
    {
        let mut acc = String::new();
        acc.append("digraph {\n");
        let mut i: usize = 0;
        proof {
            assert(dot_lines(edge_views(self.edges@).take(0)) =~= Seq::<char>::empty());
            assert(acc@ =~= "digraph {\n"@ + dot_lines(edge_views(self.edges@).take(0)));
        }
        while i < self.edges.len()
            invariant
                i <= self.edges@.len(),
                acc@ == "digraph {\n"@ + dot_lines(edge_views(self.edges@).take(i as int)),
            decreases self.edges@.len() - i,
        {
            proof {
                assert(edge_views(self.edges@)[i as int] == (self.edges@[i as int].child@,
                self.edges@[i as int].parent@));
            }
            acc.append("    \"");
            acc.append(self.edges[i].child.as_str());
            acc.append("\" -> \"");
            acc.append(self.edges[i].parent.as_str());
            acc.append("\"\n");
            proof {
                let views = edge_views(self.edges@);
                assert(views.take(i as int + 1).drop_last() =~= views.take(i as int));
                assert(views.take(i as int + 1).last() == views[i as int]);
            }
            i += 1;
        }
        acc.append("}\n");
        proof {
            assert(edge_views(self.edges@).take(self.edges@.len() as int) =~= edge_views(
                self.edges@,
            ));
        }
        acc
    }

    /// A plain listing of the graph, one controller edge per line.
    pub fn display_string(&self) -> (r: String)
        ensures
            r@ == display_of(edge_views(self.edges@)),
    {
        let mut acc = String::new();
        let mut i: usize = 0;
        proof {
            assert(acc@ =~= display_of(edge_views(self.edges@).take(0)));
        }
        while i < self.edges.len()
            invariant
                i <= self.edges@.len(),
                acc@ == display_of(edge_views(self.edges@).take(i as int)),
            decreases self.edges@.len() - i,
        {
            proof {
                assert(edge_views(self.edges@)[i as int] == (self.edges@[i as int].child@,
                self.edges@[i as int].parent@));
            }
            acc.append(self.edges[i].child.as_str());
            acc.append(" -> ");
            acc.append(self.edges[i].parent.as_str());
            acc.append("\n");
            proof {
                let views = edge_views(self.edges@);
                assert(views.take(i as int + 1).drop_last() =~= views.take(i as int));
                assert(views.take(i as int + 1).last() == views[i as int]);
            }
            i += 1;
        }
        proof {
            assert(edge_views(self.edges@).take(self.edges@.len() as int) =~= edge_views(
                self.edges@,
            ));
        }
        acc
    }
}

/// One DOT edge line.
pub open spec fn dot_line(e: (Seq<char>, Seq<char>)) -> Seq<char> {
    "    \""@ + e.0 + "\" -> \""@ + e.1 + "\"\n"@
}

pub open spec fn dot_lines(edges: Seq<(Seq<char>, Seq<char>)>) -> Seq<char>
    decreases edges.len(),
{
    if edges.len() == 0 {
        Seq::empty()
    } else {
        dot_lines(edges.drop_last()) + dot_line(edges.last())
    }
}

/// The whole DOT document for a graph.
pub open spec fn graphviz_of(edges: Seq<(Seq<char>, Seq<char>)>) -> Seq<char> {
    "digraph {\n"@ + dot_lines(edges) + "}\n"@
}

/// One plain edge line.
pub open spec fn display_line(e: (Seq<char>, Seq<char>)) -> Seq<char> {
    e.0 + " -> "@ + e.1 + "\n"@
}

/// The plain listing of a graph.
pub open spec fn display_of(edges: Seq<(Seq<char>, Seq<char>)>) -> Seq<char>
    decreases edges.len(),
{
    if edges.len() == 0 {
        Seq::empty()
    } else {
        display_of(edges.drop_last()) + display_line(edges.last())
    }
}

/// A child that some edge records has a recorded first parent.
proof fn lemma_first_parent_exists(
    edges: Seq<(Seq<char>, Seq<char>)>,
    child: Seq<char>,
    j: int,
    i: int,
)
    requires
        0 <= j <= i < edges.len(),
        edges[i].0 == child,
    ensures
        parent_of_from(edges, child, j) is Some,
    decreases i - j,
{
    if edges[j].0 == child {
    } else {
        lemma_first_parent_exists(edges, child, j + 1, i);
    }
}

/// The first edge recorded for a child is among the edges.
proof fn lemma_parent_edge_exists(
    edges: Seq<(Seq<char>, Seq<char>)>,
    child: Seq<char>,
    i: int,
)
    requires
        parent_of_from(edges, child, i) is Some,
        0 <= i,
    ensures
        exists|j: int| i <= j < edges.len() && (#[trigger] edges[j]).0 == child,
    decreases edges.len() - i,
{
    if i >= edges.len() {
    } else if edges[i].0 == child {
    } else {
        lemma_parent_edge_exists(edges, child, i + 1);
    }
}

/// A directed cycle in the recorded parent relation: following first
/// parents from the cycle's start leads back to it.
pub open spec fn is_parent_cycle(
    edges: Seq<(Seq<char>, Seq<char>)>,
    cycle: Seq<Seq<char>>,
) -> bool {
    &&& cycle.len() >= 1
    &&& forall|m: int|
        0 <= m < cycle.len() - 1 ==> parent_of(edges, #[trigger] cycle[m]) == Some(cycle[m + 1])
    &&& parent_of(edges, cycle.last()) == Some(cycle[0])
}

/// On a parent cycle, every walk runs forever: no fuel suffices.
proof fn lemma_cycle_never_tops(
    edges: Seq<(Seq<char>, Seq<char>)>,
    cycle: Seq<Seq<char>>,
    j: int,
    fuel: nat,
)
    requires
        is_parent_cycle(edges, cycle),
        0 <= j < cycle.len(),
    ensures
        !reaches_top(edges, cycle[j], fuel),
    decreases fuel,
{
    let next: int = if j + 1 < cycle.len() {
        j + 1
    } else {
        0
    };
    if j + 1 < cycle.len() {
        assert(parent_of(edges, cycle[j]) == Some(cycle[next]));
    } else {
        assert(cycle[j] == cycle.last());
        assert(parent_of(edges, cycle[j]) == Some(cycle[0]));
    }
    if fuel > 0 {
        lemma_cycle_never_tops(edges, cycle, next, (fuel - 1) as nat);
    }
}

/// Cycle rejection law: a set of edges whose parent relation contains a
/// cycle is never a tree, so `TrustchainGraph::new` and `validate` reject
/// it with `NotATree`.
pub proof fn lemma_cycle_rejected(edges: Seq<(Seq<char>, Seq<char>)>, cycle: Seq<Seq<char>>)
    requires
        is_parent_cycle(edges, cycle),
    ensures
        !spec_is_tree(edges),
{
    if spec_is_tree(edges) {
        lemma_parent_edge_exists(edges, cycle[0], 0);
        let j = choose|j: int| 0 <= j < edges.len() && (#[trigger] edges[j]).0 == cycle[0];
        assert(reaches_top(edges, cycle[0], edges.len() as nat));
        lemma_cycle_never_tops(edges, cycle, 0, edges.len() as nat);
    }
}

/// The nodes visited by climbing first parents from `d` for at most
/// `fuel` steps.
spec fn walk_path(edges: Seq<(Seq<char>, Seq<char>)>, d: Seq<char>, fuel: nat) -> Seq<Seq<char>>
    decreases fuel,
{
    match parent_of(edges, d) {
        None => seq![d],
        Some(p) => if fuel == 0 {
            seq![d]
        } else {
            seq![d] + walk_path(edges, p, (fuel - 1) as nat)
        },
    }
}

/// A walk that does not top out visits `fuel + 1` nodes, each the parent
/// of the one before, and each with a parent of its own.
proof fn lemma_walk_path_props(edges: Seq<(Seq<char>, Seq<char>)>, d: Seq<char>, fuel: nat)
    requires
        !reaches_top(edges, d, fuel),
    ensures
        walk_path(edges, d, fuel).len() == fuel + 1,
        walk_path(edges, d, fuel)[0] == d,
        forall|m: int|
            0 <= m < fuel ==> parent_of(edges, #[trigger] walk_path(edges, d, fuel)[m]) == Some(
                walk_path(edges, d, fuel)[m + 1],
            ),
        forall|m: int|
            0 <= m <= fuel ==> parent_of(edges, #[trigger] walk_path(edges, d, fuel)[m]) is Some,
    decreases fuel,
{
    let p = parent_of(edges, d)->0;
    if fuel > 0 {
        lemma_walk_path_props(edges, p, (fuel - 1) as nat);
        let sub = walk_path(edges, p, (fuel - 1) as nat);
        let path = walk_path(edges, d, fuel);
        assert(path =~= seq![d] + sub);
        assert forall|m: int|
            0 <= m < fuel implies parent_of(edges, #[trigger] path[m]) == Some(path[m + 1]) by {
            if m == 0 {
                assert(path[0] == d && path[1] == sub[0]);
            } else {
                assert(path[m] == sub[m - 1] && path[m + 1] == sub[m]);
            }
        }
        assert forall|m: int|
            0 <= m <= fuel implies parent_of(edges, #[trigger] path[m]) is Some by {
            if m > 0 {
                assert(path[m] == sub[m - 1]);
            }
        }
    }
}

/// Tree acceptance law: a set of edges with single parents and no cycle
/// in its parent relation is a tree, so `TrustchainGraph::new` and
/// `validate` accept it.
pub proof fn lemma_tree_accepted(edges: Seq<(Seq<char>, Seq<char>)>)
    requires
        single_parented(edges),
        forall|cycle: Seq<Seq<char>>| !#[trigger] is_parent_cycle(edges, cycle),
    ensures
        spec_is_tree(edges),
{
    let n = edges.len() as nat;
    assert forall|i: int|
        0 <= i < edges.len() implies reaches_top(edges, (#[trigger] edges[i]).0, n) by {
        if !reaches_top(edges, edges[i].0, n) {
            let d = edges[i].0;
            lemma_walk_path_props(edges, d, n);
            let path = walk_path(edges, d, n);
            let children = edges.map_values(|e: (Seq<char>, Seq<char>)| e.0);
            assert forall|m: int| 0 <= m < path.len() implies children.to_set().contains(
                #[trigger] path[m],
            ) by {
                lemma_parent_edge_exists(edges, path[m], 0);
                let j = choose|j: int| 0 <= j < edges.len() && (#[trigger] edges[j]).0 == path[m];
                assert(children[j] == path[m]);
                assert(children.to_set().contains(children[j]));
            }
            if path.no_duplicates() {
                path.unique_seq_to_set();
                children.lemma_cardinality_of_set();
                vstd::seq_lib::seq_to_set_is_finite(children);
                vstd::set_lib::lemma_len_subset(path.to_set(), children.to_set());
                assert(false);
            }
            let (a, b) = choose|a: int, b: int|
                0 <= a < b < path.len() && path[a] == path[b] && a != b;
            assert(exists|a: int, b: int| 0 <= a < b < path.len() && path[a] == path[b] && a != b)
                by {
                let (x, y) = choose|x: int, y: int|
                    0 <= x < path.len() && 0 <= y < path.len() && x != y && path[x] == path[y];
                if x < y {
                    assert(0 <= x < y < path.len() && path[x] == path[y] && x != y);
                } else {
                    assert(0 <= y < x < path.len() && path[y] == path[x] && y != x);
                }
            }
            let cycle = path.subrange(a, b);
            assert(cycle.len() >= 1);
            assert forall|m: int|
                0 <= m < cycle.len() - 1 implies parent_of(edges, #[trigger] cycle[m]) == Some(
                cycle[m + 1],
            ) by {
                assert(cycle[m] == path[a + m] && cycle[m + 1] == path[a + m + 1]);
            }
            assert(cycle.last() == path[b - 1]);
            assert(parent_of(edges, path[b - 1]) == Some(path[b]));
            assert(parent_of(edges, cycle.last()) == Some(cycle[0]));
            assert(is_parent_cycle(edges, cycle));
            assert(false);
        }
    }
}

/// Tree violation law: two edges recording distinct parents for one
/// child are never accepted as a tree.
pub proof fn lemma_two_parents_rejected(edges: Seq<(Seq<char>, Seq<char>)>, i: int, j: int)
    requires
        0 <= i < edges.len(),
        0 <= j < edges.len(),
        edges[i].0 == edges[j].0,
        edges[i].1 != edges[j].1,
    ensures
        !spec_is_tree(edges),
{
    if spec_is_tree(edges) {
        assert(parent_of(edges, edges[i].0) == Some(edges[i].1));
        assert(parent_of(edges, edges[j].0) == Some(edges[j].1));
    }
}

} // verus!
