//! Reachability in a graph whose nodes are positions.

use vstd::prelude::*;

verus! {

/// A graph: the successors of each node.
pub type Adjacency = Seq<Seq<usize>>;

/// Whether every successor is a node, and positions of successors fit.
pub open spec fn is_graph(adj: Adjacency) -> bool {
    &&& forall|a: int, k: int|
        0 <= a < adj.len() && 0 <= k < adj[a].len() ==> (#[trigger] adj[a][k]) < adj.len()
    &&& forall|a: int| 0 <= a < adj.len() ==> (#[trigger] adj[a]).len() <= usize::MAX
}

/// Whether there is an edge.
pub open spec fn edge(adj: Adjacency, a: usize, b: usize) -> bool {
    a < adj.len() && adj[a as int].contains(b)
}

/// Whether there is a walk of `n` edges.
pub open spec fn walk(adj: Adjacency, a: usize, b: usize, n: nat) -> bool
    decreases n,
{
    if n == 0 {
        a == b
    } else {
        exists|c: usize| #[trigger] edge(adj, a, c) && walk(adj, c, b, (n - 1) as nat)
    }
}

/// Whether there is a walk.
#[verifier::opaque]
pub open spec fn reach(adj: Adjacency, a: usize, b: usize) -> bool {
    exists|n: nat| walk(adj, a, b, n)
}

/// Whether each of two nodes can be reached from the other.
pub open spec fn mutual(adj: Adjacency, a: usize, b: usize) -> bool {
    reach(adj, a, b) && reach(adj, b, a)
}

/// A node reaches itself.
pub proof fn lemma_reach_self(adj: Adjacency, a: usize)
    ensures
        reach(adj, a, a),
{
    reveal(reach);
    assert(walk(adj, a, a, 0));
}

/// A node reaches its successors.
pub proof fn lemma_reach_edge(adj: Adjacency, a: usize, b: usize)
    requires
        edge(adj, a, b),
    ensures
        reach(adj, a, b),
{
    reveal(reach);
    assert(walk(adj, b, b, 0));
    assert(walk(adj, a, b, 1));
}

proof fn lemma_walk_join(adj: Adjacency, a: usize, b: usize, c: usize, n: nat, m: nat)
    requires
        walk(adj, a, b, n),
        walk(adj, b, c, m),
    ensures
        walk(adj, a, c, n + m),
    decreases n,
{
    if n > 0 {
        let d = choose|d: usize| #[trigger] edge(adj, a, d) && walk(adj, d, b, (n - 1) as nat);
        lemma_walk_join(adj, d, b, c, (n - 1) as nat, m);
        assert((n + m - 1) as nat == (n - 1) as nat + m);
    }
}

/// Reachability is transitive.
pub proof fn lemma_reach_trans(adj: Adjacency, a: usize, b: usize, c: usize)
    requires
        reach(adj, a, b),
        reach(adj, b, c),
    ensures
        reach(adj, a, c),
{
    reveal(reach);
    let n = choose|n: nat| walk(adj, a, b, n);
    let m = choose|m: nat| walk(adj, b, c, m);
    lemma_walk_join(adj, a, b, c, n, m);
}

/// Whether no edge leaves `set`.
pub open spec fn closed_under(adj: Adjacency, set: Set<usize>) -> bool {
    forall|a: usize, b: usize| set.contains(a) && #[trigger] edge(adj, a, b) ==> set.contains(b)
}

proof fn lemma_walk_closed(adj: Adjacency, set: Set<usize>, a: usize, b: usize, n: nat)
    requires
        closed_under(adj, set),
        set.contains(a),
        walk(adj, a, b, n),
    ensures
        set.contains(b),
    decreases n,
{
    if n > 0 {
        let c = choose|c: usize| #[trigger] edge(adj, a, c) && walk(adj, c, b, (n - 1) as nat);
        lemma_walk_closed(adj, set, c, b, (n - 1) as nat);
    }
}

/// What a set that no edge leaves can reach lies in it.
pub proof fn lemma_reach_closed(adj: Adjacency, set: Set<usize>, a: usize, b: usize)
    requires
        closed_under(adj, set),
        set.contains(a),
        reach(adj, a, b),
    ensures
        set.contains(b),
{
    reveal(reach);
    let n = choose|n: nat| walk(adj, a, b, n);
    lemma_walk_closed(adj, set, a, b, n);
}

} // verus!
