//! What Tarjan's search keeps true at every step.

use vstd::prelude::*;

use super::reach::{
    closed_under, edge, is_graph, lemma_reach_closed, lemma_reach_edge, lemma_reach_self,
    lemma_reach_trans, mutual, reach, Adjacency,
};

verus! {

/// A node whose successors are being visited.
#[derive(Copy, Clone, Debug, PartialEq, Eq, Structural)]
pub struct Frame {
    /// The node.
    pub node: usize,
    /// The position of the next successor.
    pub next: usize,
}

/// The state of a search.
#[verifier::ext_equal]
pub struct State {
    /// Whether a node was met.
    pub seen: Seq<bool>,
    /// The nodes in the order in which they were met.
    pub order: Seq<usize>,
    /// The position of a node in that order.
    pub index: Seq<usize>,
    /// The least position that a node is known to reach on the stack.
    pub low: Seq<usize>,
    /// The nodes that were met and have no component yet.
    pub stack: Seq<usize>,
    /// Whether a node is on the stack.
    pub on_stack: Seq<bool>,
    /// The component of a node.
    pub comp: Seq<usize>,
    /// The components found so far.
    pub sccs: Seq<Seq<usize>>,
    /// The open nodes, outermost first.
    pub frames: Seq<Frame>,
}

impl State {
    /// Whether a node has a component.
    pub open spec fn popped(self, v: usize) -> bool {
        v < self.seen.len() && self.seen[v as int] && !self.on_stack[v as int]
    }

    /// Whether a node is on the stack.
    pub open spec fn live(self, v: usize) -> bool {
        v < self.on_stack.len() && self.on_stack[v as int]
    }

    /// The node of a frame.
    pub open spec fn gray(self, i: int) -> usize {
        self.frames[i].node
    }

    /// The position of a node.
    pub open spec fn at(self, v: usize) -> usize {
        self.index[v as int]
    }

    /// Whether the `k`-th successor of `y` is still to be visited.
    pub open spec fn pending(self, y: usize, k: int) -> bool {
        exists|i: int|
            0 <= i < self.frames.len() && (#[trigger] self.frames[i]).node == y
                && self.frames[i].next <= k
    }

    /// Whether frame `i` is the innermost one opened no later than `y` was met.
    pub open spec fn owner(self, i: int, y: usize) -> bool {
        &&& 0 <= i < self.frames.len()
        &&& self.at(self.gray(i)) <= self.at(y)
        &&& i + 1 < self.frames.len() ==> self.at(y) < self.at(self.gray(i + 1))
    }

    /// Every table has an entry for each of `n` nodes.
    pub open spec fn sized(self, n: int) -> bool {
        &&& self.seen.len() == n
        &&& self.index.len() == n
        &&& self.low.len() == n
        &&& self.on_stack.len() == n
        &&& self.comp.len() == n
    }

    /// Positions and nodes that were met correspond.
    pub open spec fn ordered(self) -> bool {
        &&& forall|i: int|
            0 <= i < self.order.len() ==> (#[trigger] self.order[i]) < self.seen.len()
                && self.seen[self.order[i] as int] && self.at(self.order[i]) == i
        &&& forall|v: usize|
            v < self.seen.len() && #[trigger] self.seen[v as int] ==> self.at(v) < self.order.len()
                && self.order[self.at(v) as int] == v
    }

    /// The stack holds the live nodes in the order in which they were met.
    pub open spec fn stacked(self) -> bool {
        &&& forall|p: int| 0 <= p < self.stack.len() ==> self.live(#[trigger] self.stack[p])
        &&& forall|v: usize| #[trigger]
            self.live(v) ==> self.seen[v as int] && self.stack.contains(v)
        &&& forall|p: int, q: int|
            0 <= p < q < self.stack.len() ==> self.at(#[trigger] self.stack[p]) < self.at(
                #[trigger] self.stack[q],
            )
    }

    /// Open nodes are live, in the order in which they were met.
    pub open spec fn framed(self, adj: Adjacency) -> bool {
        &&& forall|i: int|
            0 <= i < self.frames.len() ==> self.live((#[trigger] self.frames[i]).node)
                && self.frames[i].next <= adj[self.frames[i].node as int].len()
        &&& forall|i: int, j: int|
            0 <= i < j < self.frames.len() ==> self.at((#[trigger] self.frames[i]).node) < self.at(
                (#[trigger] self.frames[j]).node,
            )
    }

    /// An open node reaches every live node that was met after it.
    pub open spec fn down(self, adj: Adjacency) -> bool {
        forall|i: int, y: usize|
            0 <= i < self.frames.len() && #[trigger] self.live(y) && self.at(
                (#[trigger] self.frames[i]).node,
            ) <= self.at(y) ==> reach(adj, self.frames[i].node, y)
    }

    /// Whether `y` reaches the node of frame `i`, which was met no later.
    pub open spec fn rises(self, adj: Adjacency, y: usize, i: int) -> bool {
        &&& 0 <= i < self.frames.len()
        &&& self.at(self.frames[i].node) <= self.at(y)
        &&& reach(adj, y, self.frames[i].node)
    }

    /// A live node reaches an open node that was met no later.
    #[verifier::opaque]
    pub open spec fn up(self, adj: Adjacency) -> bool {
        forall|y: usize| #[trigger]
            self.live(y) ==> exists|i: int| #[trigger] self.rises(adj, y, i)
    }

    /// A successor of a live node was met or is still to be visited.
    #[verifier::opaque]
    pub open spec fn explored(self, adj: Adjacency) -> bool {
        forall|y: usize, k: int|
            #![trigger self.live(y), adj[y as int][k]]
            self.live(y) && 0 <= k < adj[y as int].len() ==> self.seen[adj[y as int][k] as int]
                || self.pending(y, k)
    }

    /// Whether `u` is the live node behind the least position of frame `i`.
    pub open spec fn lows_to(self, adj: Adjacency, i: int, u: usize) -> bool {
        &&& self.live(u)
        &&& self.at(u) == self.low[self.gray(i) as int]
        &&& reach(adj, self.gray(i), u)
    }

    /// The least position of an open node is that of a live node it reaches.
    #[verifier::opaque]
    pub open spec fn low_sound(self, adj: Adjacency) -> bool {
        forall|i: int|
            0 <= i < self.frames.len() ==> self.low[(#[trigger] self.frames[i]).node as int]
                <= self.at(self.frames[i].node) && exists|u: usize| #[trigger]
                self.lows_to(adj, i, u)
    }

    /// No visited edge goes below the least position of the frame that owns its
    /// start.
    #[verifier::opaque]
    pub open spec fn low_complete(self, adj: Adjacency) -> bool {
        forall|y: usize, k: int, i: int|
            #![trigger self.owner(i, y), adj[y as int][k]]
            self.live(y) && 0 <= k < adj[y as int].len() && self.live(adj[y as int][k])
                && !self.pending(y, k) && self.owner(i, y) ==> self.low[self.gray(i) as int]
                <= self.at(adj[y as int][k])
    }

    /// No edge leaves the nodes that have components.
    #[verifier::opaque]
    pub open spec fn closed(self, adj: Adjacency) -> bool {
        forall|a: usize, b: usize|
            self.popped(a) && #[trigger] edge(adj, a, b) ==> self.popped(b) && self.comp[b as int]
                <= self.comp[a as int]
    }

    /// The components are classes of nodes that reach each other.
    #[verifier::opaque]
    pub open spec fn classes(self, adj: Adjacency) -> bool {
        &&& forall|v: usize| #[trigger]
            self.popped(v) ==> self.comp[v as int] < self.sccs.len()
                && self.sccs[self.comp[v as int] as int].contains(v)
        &&& forall|k: int, v: usize|
            0 <= k < self.sccs.len() && #[trigger] self.sccs[k].contains(v) ==> self.popped(v)
                && self.comp[v as int] == k
        &&& forall|k: int|
            0 <= k < self.sccs.len() ==> (#[trigger] self.sccs[k]).len() > 0
                && self.sccs[k].no_duplicates()
        &&& forall|a: usize, b: usize|
            self.popped(a) && self.popped(b) && self.comp[a as int] == self.comp[b as int]
                ==> #[trigger] mutual(adj, a, b)
        &&& forall|a: usize, b: usize|
            self.popped(a) && #[trigger] mutual(adj, a, b) ==> self.popped(b)
                && self.comp[a as int] == self.comp[b as int]
    }

    /// The open node that a live node reaches.
    pub proof fn risen(self, adj: Adjacency, y: usize) -> (i: int)
        requires
            self.up(adj),
            self.live(y),
        ensures
            self.rises(adj, y, i),
    {
        reveal(State::up);
        choose|i: int| #[trigger] self.rises(adj, y, i)
    }

    /// The live node behind the least position of an open node.
    pub proof fn lowest(self, adj: Adjacency, i: int) -> (u: usize)
        requires
            self.low_sound(adj),
            0 <= i < self.frames.len(),
        ensures
            self.lows_to(adj, i, u),
            self.low[self.gray(i) as int] <= self.at(self.gray(i)),
    {
        reveal(State::low_sound);
        assert(self.frames[i].node == self.gray(i));
        choose|u: usize| #[trigger] self.lows_to(adj, i, u)
    }

    /// What the search keeps true.
    pub open spec fn inv(self, adj: Adjacency) -> bool {
        &&& is_graph(adj)
        &&& self.sized(adj.len() as int)
        &&& self.ordered()
        &&& self.stacked()
        &&& self.framed(adj)
        &&& self.down(adj)
        &&& self.up(adj)
        &&& self.explored(adj)
        &&& self.low_sound(adj)
        &&& self.low_complete(adj)
        &&& self.closed(adj)
        &&& self.classes(adj)
    }

    /// After a node is met.
    pub open spec fn met(self, v: usize) -> State {
        State {
            seen: self.seen.update(v as int, true),
            order: self.order.push(v),
            index: self.index.update(v as int, self.order.len() as usize),
            low: self.low.update(v as int, self.order.len() as usize),
            stack: self.stack.push(v),
            on_stack: self.on_stack.update(v as int, true),
            frames: self.frames.push(Frame { node: v, next: 0 }),
            ..self
        }
    }

    /// After the innermost open node goes on to its next successor.
    pub open spec fn advanced(self) -> State {
        let top = self.frames.last();
        State {
            frames: self.frames.update(
                self.frames.len() - 1,
                Frame { node: top.node, next: (top.next + 1) as usize },
            ),
            ..self
        }
    }

    /// After the least position of a node is lowered to `to`.
    pub open spec fn lowered(self, v: usize, to: usize) -> State {
        if to < self.low[v as int] {
            State { low: self.low.update(v as int, to), ..self }
        } else {
            self
        }
    }

    /// After the innermost frame is closed.
    pub open spec fn left(self) -> State {
        let rest = State { frames: self.frames.drop_last(), ..self };
        if rest.frames.len() > 0 {
            rest.lowered(rest.frames.last().node, self.low[self.frames.last().node as int])
        } else {
            rest
        }
    }
}

/// Before anything is met.
pub open spec fn start(n: nat) -> State {
    State {
        seen: Seq::new(n, |i: int| false),
        order: Seq::empty(),
        index: Seq::new(n, |i: int| 0usize),
        low: Seq::new(n, |i: int| 0usize),
        stack: Seq::empty(),
        on_stack: Seq::new(n, |i: int| false),
        comp: Seq::new(n, |i: int| 0usize),
        sccs: Seq::empty(),
        frames: Seq::empty(),
    }
}

/// The start satisfies the invariant.
pub proof fn lemma_start(adj: Adjacency)
    requires
        is_graph(adj),
    ensures
        start(adj.len()).inv(adj),
{
    reveal(State::up);
    reveal(State::explored);
    reveal(State::low_sound);
    reveal(State::low_complete);
    reveal(State::closed);
    reveal(State::classes);
}

/// The invariant after a first node is met.
pub proof fn lemma_root(adj: Adjacency, s: State, v: usize)
    requires
        s.inv(adj),
        s.frames.len() == 0,
        v < adj.len(),
        !s.seen[v as int],
        s.order.len() <= usize::MAX,
    ensures
        s.met(v).inv(adj),
{
    let t = s.met(v);
    assert forall|y: usize| !(#[trigger] s.live(y)) by {
        if s.live(y) {
            let i = s.risen(adj, y);
            assert(false);
        }
    }
    assert(s.stack.len() == 0) by {
        if s.stack.len() > 0 {
            assert(s.live(s.stack[0]));
        }
    }
    lemma_reach_self(adj, v);
    lemma_met_common(adj, s, v);
    assert(t.live(v) && t.at(v) == s.order.len());
    assert(t.rises(adj, v, 0));
    assert(t.lows_to(adj, 0, v));
    assert(forall|y: usize| #[trigger] t.live(y) ==> y == v);
    assert(t.stack =~= seq![v]);
    assert forall|y: usize, k: int|
        #![trigger t.live(y), adj[y as int][k]]
        t.live(y) && 0 <= k < adj[y as int].len() implies t.seen[adj[y as int][k] as int]
        || t.pending(y, k) by {
        assert(t.frames[0].node == y && t.frames[0].next <= k);
    }
    reveal(State::explored);
    assert(t.low_complete(adj)) by {
        reveal(State::low_complete);
        assert forall|y: usize, k: int, i: int|
            #![trigger t.owner(i, y), adj[y as int][k]]
            t.live(y) && 0 <= k < adj[y as int].len() && t.live(adj[y as int][k]) && !t.pending(
                y,
                k,
            ) && t.owner(i, y) implies t.low[t.gray(i) as int] <= t.at(adj[y as int][k]) by {
            assert(t.gray(0) == v);
        }
    }
    reveal(State::up);
    reveal(State::low_sound);
}

/// What holds of the tables after a new node is met.
proof fn lemma_met_common(adj: Adjacency, s: State, v: usize)
    requires
        s.inv(adj),
        v < adj.len(),
        !s.seen[v as int],
        s.order.len() <= usize::MAX,
    ensures
        s.met(v).sized(adj.len() as int),
        s.met(v).ordered(),
        s.met(v).stacked(),
        s.met(v).closed(adj),
        s.met(v).classes(adj),
        forall|y: usize| #[trigger] s.live(y) ==> s.met(v).live(y) && y != v,
        forall|y: usize| #[trigger] s.met(v).live(y) ==> y == v || s.live(y),
        forall|y: usize| #[trigger] s.met(v).popped(y) <==> s.popped(y),
        forall|y: usize| y != v && y < adj.len() ==> #[trigger] s.met(v).at(y) == s.at(y),
        forall|y: usize| #[trigger] s.live(y) ==> s.at(y) < s.met(v).at(v),
{
    let t = s.met(v);
    assert(!s.live(v));
    assert forall|y: usize| #[trigger] s.live(y) implies t.live(y) && y != v && s.at(y) < t.at(v) by {
        assert(s.seen[y as int]);
    }
    assert forall|y: usize| #[trigger] t.popped(y) <==> s.popped(y) by {}
    assert forall|w: usize| #[trigger] t.live(w) implies t.seen[w as int] && t.stack.contains(w) by {
        if w == v {
            assert(t.stack[s.stack.len() as int] == v);
        } else {
            assert(s.live(w));
            let p = choose|p: int| 0 <= p < s.stack.len() && s.stack[p] == w;
            assert(t.stack[p] == w);
        }
    }
    assert forall|p: int, q: int| 0 <= p < q < t.stack.len() implies t.at(
        #[trigger] t.stack[p],
    ) < t.at(#[trigger] t.stack[q]) by {
        assert(s.live(s.stack[p]));
        if q < s.stack.len() {
            assert(s.live(s.stack[q]));
        }
    }
    assert forall|i: int| 0 <= i < t.order.len() implies (#[trigger] t.order[i]) < t.seen.len()
        && t.seen[t.order[i] as int] && t.at(t.order[i]) == i by {
        if i < s.order.len() {
            assert(s.seen[s.order[i] as int]);
        }
    }
    reveal(State::closed);
    reveal(State::classes);
    assert forall|a: usize, b: usize| t.popped(a) && #[trigger] edge(adj, a, b) implies t.popped(b)
        && t.comp[b as int] <= t.comp[a as int] by {
        assert(s.popped(a));
    }
    assert forall|k: int, w: usize| 0 <= k < t.sccs.len() && #[trigger] t.sccs[k].contains(
        w,
    ) implies t.popped(w) && t.comp[w as int] == k by {
        assert(s.sccs[k].contains(w));
    }
    assert forall|a: usize, b: usize|
        t.popped(a) && t.popped(b) && t.comp[a as int] == t.comp[b as int] implies #[trigger] mutual(
        adj,
        a,
        b,
    ) by {
        assert(s.popped(a) && s.popped(b));
    }
    assert forall|a: usize, b: usize| t.popped(a) && #[trigger] mutual(adj, a, b) implies t.popped(b)
        && t.comp[a as int] == t.comp[b as int] by {
        assert(s.popped(a));
    }
}

/// The invariant after a new successor of the innermost open node is met.
pub proof fn lemma_child(adj: Adjacency, s: State)
    requires
        s.inv(adj),
        s.frames.len() > 0,
        s.frames.last().next < adj[s.frames.last().node as int].len(),
        !s.seen[adj[s.frames.last().node as int][s.frames.last().next as int] as int],
        s.order.len() <= usize::MAX,
    ensures
        s.advanced().met(adj[s.frames.last().node as int][s.frames.last().next as int]).inv(adj),
{
    let top = s.frames.last();
    let last = s.frames.len() - 1;
    let node = top.node;
    let v = adj[node as int][top.next as int];
    let a = s.advanced();
    let t = a.met(v);
    let b = s.met(v);
    assert(s.frames[last] == top);
    lemma_met_common(adj, s, v);
    assert(t.seen == b.seen && t.order == b.order && t.index == b.index && t.low == b.low
        && t.stack == b.stack && t.on_stack == b.on_stack && t.comp == b.comp && t.sccs == b.sccs);
    assert(forall|y: usize| #[trigger] t.live(y) <==> b.live(y));
    assert(forall|y: usize| #[trigger] t.popped(y) <==> b.popped(y));
    assert(forall|y: usize| #[trigger] t.at(y) == b.at(y));
    assert(t.stacked()) by {
        assert forall|p: int| 0 <= p < t.stack.len() implies t.live(#[trigger] t.stack[p]) by {
            assert(b.live(b.stack[p]));
        }
        assert forall|w: usize| #[trigger] t.live(w) implies t.seen[w as int] && t.stack.contains(
            w,
        ) by {
            assert(b.live(w));
        }
        assert forall|p: int, q: int| 0 <= p < q < t.stack.len() implies t.at(
            #[trigger] t.stack[p],
        ) < t.at(#[trigger] t.stack[q]) by {
            assert(b.at(b.stack[p]) < b.at(b.stack[q]));
        }
    }
    assert(t.ordered()) by {
        assert forall|i: int| 0 <= i < t.order.len() implies (#[trigger] t.order[i])
            < t.seen.len() && t.seen[t.order[i] as int] && t.at(t.order[i]) == i by {
            assert(b.seen[b.order[i] as int]);
        }
        assert forall|w: usize| w < t.seen.len() && #[trigger] t.seen[w as int] implies t.at(w)
            < t.order.len() && t.order[t.at(w) as int] == w by {
            assert(b.seen[w as int]);
        }
    }
    assert(t.closed(adj)) by {
        reveal(State::closed);
        assert forall|x: usize, y: usize| t.popped(x) && #[trigger] edge(adj, x, y) implies t.popped(
            y,
        ) && t.comp[y as int] <= t.comp[x as int] by {
            assert(b.popped(x));
        }
    }
    assert(t.classes(adj)) by {
        reveal(State::classes);
        assert forall|w: usize| #[trigger] t.popped(w) implies t.comp[w as int] < t.sccs.len()
            && t.sccs[t.comp[w as int] as int].contains(w) by {
            assert(b.popped(w));
        }
        assert forall|k: int, w: usize| 0 <= k < t.sccs.len() && #[trigger] t.sccs[k].contains(
            w,
        ) implies t.popped(w) && t.comp[w as int] == k by {
            assert(b.sccs[k].contains(w));
        }
        assert forall|x: usize, y: usize|
            t.popped(x) && t.popped(y) && t.comp[x as int] == t.comp[y as int] implies #[trigger] mutual(
            adj,
            x,
            y,
        ) by {
            assert(b.popped(x) && b.popped(y));
        }
        assert forall|x: usize, y: usize| t.popped(x) && #[trigger] mutual(adj, x, y) implies t.popped(
            y,
        ) && t.comp[x as int] == t.comp[y as int] by {
            assert(b.popped(x));
        }
    }
    // The frames: the old ones keep their nodes.
    assert(t.frames.len() == s.frames.len() + 1);
    assert forall|i: int| 0 <= i < s.frames.len() implies (#[trigger] t.frames[i]).node
        == s.frames[i].node && s.frames[i].next <= t.frames[i].next <= s.frames[i].next + 1 by {}
    assert(t.frames[last + 1] == Frame { node: v, next: 0 });
    assert(s.live(node));
    assert(edge(adj, node, v)) by {
        assert(adj[node as int][top.next as int] == v);
    }
    lemma_reach_edge(adj, node, v);
    lemma_reach_self(adj, v);
    assert(t.framed(adj)) by {
        assert forall|i: int| 0 <= i < t.frames.len() implies t.live(
            (#[trigger] t.frames[i]).node,
        ) && t.frames[i].next <= adj[t.frames[i].node as int].len() by {
            if i < s.frames.len() {
                assert(s.live(s.frames[i].node));
            }
        }
        assert forall|i: int, j: int| 0 <= i < j < t.frames.len() implies t.at(
            (#[trigger] t.frames[i]).node,
        ) < t.at((#[trigger] t.frames[j]).node) by {
            assert(s.live(s.frames[i].node));
            if j < s.frames.len() {
                assert(s.live(s.frames[j].node));
                assert(s.at(s.frames[i].node) < s.at(s.frames[j].node));
            }
        }
    }
    assert(t.down(adj)) by {
        assert forall|i: int, y: usize|
            0 <= i < t.frames.len() && #[trigger] t.live(y) && t.at((#[trigger] t.frames[i]).node)
                <= t.at(y) implies reach(adj, t.frames[i].node, y) by {
            if i < s.frames.len() {
                assert(s.live(s.frames[i].node));
                if y == v {
                    assert(s.at(s.frames[i].node) <= s.at(s.frames[last].node));
                    assert(reach(adj, s.frames[i].node, node));
                    lemma_reach_trans(adj, s.frames[i].node, node, v);
                } else {
                    assert(s.live(y));
                }
            } else if y != v {
                assert(s.live(y));
            }
        }
    }
    assert(t.up(adj)) by {
        assert forall|y: usize| #[trigger] t.live(y) implies exists|i: int| #[trigger]
            t.rises(adj, y, i) by {
            if y == v {
                assert(t.rises(adj, y, last + 1));
            } else {
                assert(s.live(y));
                let i = s.risen(adj, y);
                assert(s.live(s.frames[i].node));
                assert(t.frames[i].node == s.frames[i].node);
                assert(t.rises(adj, y, i));
            }
        }
        reveal(State::up);
    }
    assert(t.explored(adj)) by {
        reveal(State::explored);
        assert forall|y: usize, k: int|
            #![trigger t.live(y), adj[y as int][k]]
            t.live(y) && 0 <= k < adj[y as int].len() implies t.seen[adj[y as int][k] as int]
            || t.pending(y, k) by {
            if y == v {
                assert(t.frames[last + 1].node == y && t.frames[last + 1].next <= k);
            } else {
                assert(s.live(y));
                if !s.seen[adj[y as int][k] as int] {
                    assert(s.pending(y, k));
                    let i = choose|i: int|
                        0 <= i < s.frames.len() && (#[trigger] s.frames[i]).node == y
                            && s.frames[i].next <= k;
                    if i < last || k > top.next {
                        assert(t.frames[i].node == y && t.frames[i].next <= k);
                    } else {
                        assert(k == top.next && y == node);
                    }
                }
            }
        }
    }
    assert(t.low_sound(adj)) by {
        assert forall|i: int| 0 <= i < t.frames.len() implies t.low[(#[trigger] t.frames[i]).node as int]
            <= t.at(t.frames[i].node) && exists|u: usize| #[trigger] t.lows_to(adj, i, u) by {
            if i < s.frames.len() {
                assert(s.live(s.frames[i].node));
                let u = s.lowest(adj, i);
                assert(s.live(u));
                assert(t.lows_to(adj, i, u));
            } else {
                assert(t.lows_to(adj, i, v));
            }
        }
        reveal(State::low_sound);
    }
    assert(t.low_complete(adj)) by {
        reveal(State::low_complete);
        assert forall|y: usize, k: int, i: int|
            #![trigger t.owner(i, y), adj[y as int][k]]
            t.live(y) && 0 <= k < adj[y as int].len() && t.live(adj[y as int][k]) && !t.pending(
                y,
                k,
            ) && t.owner(i, y) implies t.low[t.gray(i) as int] <= t.at(adj[y as int][k]) by {
            if y == v {
                assert(t.frames[last + 1].node == y && t.frames[last + 1].next <= k);
                assert(false);
            }
            assert(s.live(y));
            if i == last + 1 {
                assert(t.at(v) <= t.at(y));
                assert(false);
            }
            assert(s.live(s.frames[i].node));
            assert(t.frames[i].node == s.frames[i].node);
            let w = adj[y as int][k];
            if w == v {
                s.lowest(adj, i);
            } else {
                assert(s.live(w));
                assert(s.owner(i, y)) by {
                    if i + 1 < s.frames.len() {
                        assert(s.live(s.frames[i + 1].node));
                        assert(t.frames[i + 1].node == s.frames[i + 1].node);
                    }
                }
                assert(!s.pending(y, k)) by {
                    if s.pending(y, k) {
                        let j = choose|j: int|
                            0 <= j < s.frames.len() && (#[trigger] s.frames[j]).node == y
                                && s.frames[j].next <= k;
                        if j < last || k > top.next {
                            assert(t.frames[j].node == y && t.frames[j].next <= k);
                        } else {
                            assert(w == v);
                        }
                    }
                }
            }
        }
    }
}

/// The invariant after the innermost open node goes past a successor that was
/// met before: where that successor is live, the least position takes it into
/// account.
pub proof fn lemma_pass(adj: Adjacency, s: State)
    requires
        s.inv(adj),
        s.frames.len() > 0,
        s.frames.last().next < adj[s.frames.last().node as int].len(),
        s.seen[adj[s.frames.last().node as int][s.frames.last().next as int] as int],
    ensures
        ({
            let node = s.frames.last().node;
            let w = adj[node as int][s.frames.last().next as int];
            &&& s.live(w) ==> s.advanced().lowered(node, s.at(w)).inv(adj)
            &&& !s.live(w) ==> s.advanced().inv(adj)
        }),
{
    let top = s.frames.last();
    let last = s.frames.len() - 1;
    let node = top.node;
    let w = adj[node as int][top.next as int];
    let t = if s.live(w) {
        s.advanced().lowered(node, s.at(w))
    } else {
        s.advanced()
    };
    assert(s.frames[last] == top);
    assert(s.live(node));
    assert(w < adj.len());
    assert(t.seen == s.seen && t.order == s.order && t.index == s.index && t.stack == s.stack
        && t.on_stack == s.on_stack && t.comp == s.comp && t.sccs == s.sccs);
    assert(forall|y: usize| #[trigger] t.live(y) <==> s.live(y));
    assert(forall|y: usize| #[trigger] t.popped(y) <==> s.popped(y));
    assert(forall|y: usize| #[trigger] t.at(y) == s.at(y));
    assert(forall|i: int|
        0 <= i < s.frames.len() ==> (#[trigger] t.frames[i]).node == s.frames[i].node
            && s.frames[i].next <= t.frames[i].next <= s.frames[i].next + 1);
    lemma_tables_kept(adj, s, t);
    assert(t.framed(adj)) by {
        assert forall|i: int| 0 <= i < t.frames.len() implies t.live(
            (#[trigger] t.frames[i]).node,
        ) && t.frames[i].next <= adj[t.frames[i].node as int].len() by {
            assert(s.live(s.frames[i].node));
        }
        assert forall|i: int, j: int| 0 <= i < j < t.frames.len() implies t.at(
            (#[trigger] t.frames[i]).node,
        ) < t.at((#[trigger] t.frames[j]).node) by {
            assert(s.at(s.frames[i].node) < s.at(s.frames[j].node));
        }
    }
    assert(t.down(adj)) by {
        assert forall|i: int, y: usize|
            0 <= i < t.frames.len() && #[trigger] t.live(y) && t.at((#[trigger] t.frames[i]).node)
                <= t.at(y) implies reach(adj, t.frames[i].node, y) by {
            assert(s.live(y) && s.at(s.frames[i].node) <= s.at(y));
        }
    }
    assert(t.up(adj)) by {
        assert forall|y: usize| #[trigger] t.live(y) implies exists|i: int| #[trigger]
            t.rises(adj, y, i) by {
            assert(s.live(y));
            let i = s.risen(adj, y);
            assert(t.frames[i].node == s.frames[i].node);
            assert(t.rises(adj, y, i));
        }
        reveal(State::up);
    }
    // A successor is pending before the step or is the one passed.
    assert forall|y: usize, k: int| #[trigger] s.pending(y, k) && !(y == node && k == top.next) implies t.pending(
        y,
        k,
    ) by {
        let i = choose|i: int|
            0 <= i < s.frames.len() && (#[trigger] s.frames[i]).node == y && s.frames[i].next <= k;
        assert(t.frames[i].node == y && t.frames[i].next <= k);
    }
    assert(t.explored(adj)) by {
        reveal(State::explored);
        assert forall|y: usize, k: int|
            #![trigger t.live(y), adj[y as int][k]]
            t.live(y) && 0 <= k < adj[y as int].len() implies t.seen[adj[y as int][k] as int]
            || t.pending(y, k) by {
            assert(s.live(y));
            assert(s.seen[adj[y as int][k] as int] || s.pending(y, k));
        }
    }
    assert(edge(adj, node, w)) by {
        assert(adj[node as int][top.next as int] == w);
    }
    lemma_reach_edge(adj, node, w);
    assert(t.low_sound(adj)) by {
        assert forall|i: int| 0 <= i < t.frames.len() implies t.low[(#[trigger] t.frames[i]).node as int]
            <= t.at(t.frames[i].node) && exists|u: usize| #[trigger] t.lows_to(adj, i, u) by {
            let u = s.lowest(adj, i);
            if i < last {
                assert(s.at(s.frames[i].node) < s.at(s.frames[last].node));
                assert(t.lows_to(adj, i, u));
            } else if s.live(w) && s.at(w) < s.low[node as int] {
                assert(t.lows_to(adj, i, w));
            } else {
                assert(t.lows_to(adj, i, u));
            }
        }
        reveal(State::low_sound);
    }
    assert(t.low_complete(adj)) by {
        reveal(State::low_complete);
        assert forall|y: usize, k: int, i: int|
            #![trigger t.owner(i, y), adj[y as int][k]]
            t.live(y) && 0 <= k < adj[y as int].len() && t.live(adj[y as int][k]) && !t.pending(
                y,
                k,
            ) && t.owner(i, y) implies t.low[t.gray(i) as int] <= t.at(adj[y as int][k]) by {
            assert(s.live(y) && s.live(adj[y as int][k]));
            assert(t.frames[i].node == s.frames[i].node);
            if i + 1 < s.frames.len() {
                assert(t.frames[i + 1].node == s.frames[i + 1].node);
            }
            assert(s.owner(i, y));
            if y == node && k == top.next {
                if i < last {
                    assert(s.at(s.frames[i + 1].node) <= s.at(s.frames[last].node));
                }
            } else {
                assert(!s.pending(y, k));
                assert(s.low[s.gray(i) as int] <= s.at(adj[y as int][k]));
            }
        }
    }
}

/// What the tables say is kept by steps that change only frames and least
/// positions.
proof fn lemma_tables_kept(adj: Adjacency, s: State, t: State)
    requires
        s.inv(adj),
        t.seen == s.seen,
        t.order == s.order,
        t.index == s.index,
        t.low.len() == s.low.len(),
        t.stack == s.stack,
        t.on_stack == s.on_stack,
        t.comp == s.comp,
        t.sccs == s.sccs,
    ensures
        t.sized(adj.len() as int),
        t.ordered(),
        t.stacked(),
        t.closed(adj),
        t.classes(adj),
{
    assert(forall|y: usize| #[trigger] t.live(y) <==> s.live(y));
    assert(forall|y: usize| #[trigger] t.popped(y) <==> s.popped(y));
    assert(forall|y: usize| #[trigger] t.at(y) == s.at(y));
    assert(t.stacked()) by {
        assert forall|p: int| 0 <= p < t.stack.len() implies t.live(#[trigger] t.stack[p]) by {
            assert(s.live(s.stack[p]));
        }
        assert forall|w: usize| #[trigger] t.live(w) implies t.seen[w as int] && t.stack.contains(
            w,
        ) by {
            assert(s.live(w));
        }
        assert forall|p: int, q: int| 0 <= p < q < t.stack.len() implies t.at(
            #[trigger] t.stack[p],
        ) < t.at(#[trigger] t.stack[q]) by {
            assert(s.at(s.stack[p]) < s.at(s.stack[q]));
        }
    }
    assert(t.ordered()) by {
        assert forall|i: int| 0 <= i < t.order.len() implies (#[trigger] t.order[i])
            < t.seen.len() && t.seen[t.order[i] as int] && t.at(t.order[i]) == i by {
            assert(s.seen[s.order[i] as int]);
        }
        assert forall|w: usize| w < t.seen.len() && #[trigger] t.seen[w as int] implies t.at(w)
            < t.order.len() && t.order[t.at(w) as int] == w by {
            assert(s.seen[w as int]);
        }
    }
    assert(t.closed(adj)) by {
        reveal(State::closed);
        assert forall|x: usize, y: usize| t.popped(x) && #[trigger] edge(adj, x, y) implies t.popped(
            y,
        ) && t.comp[y as int] <= t.comp[x as int] by {
            assert(s.popped(x));
        }
    }
    assert(t.classes(adj)) by {
        reveal(State::classes);
        assert forall|w: usize| #[trigger] t.popped(w) implies t.comp[w as int] < t.sccs.len()
            && t.sccs[t.comp[w as int] as int].contains(w) by {
            assert(s.popped(w));
        }
        assert forall|k: int, w: usize| 0 <= k < t.sccs.len() && #[trigger] t.sccs[k].contains(
            w,
        ) implies t.popped(w) && t.comp[w as int] == k by {
            assert(s.sccs[k].contains(w));
        }
        assert forall|x: usize, y: usize|
            t.popped(x) && t.popped(y) && t.comp[x as int] == t.comp[y as int] implies #[trigger] mutual(
            adj,
            x,
            y,
        ) by {
            assert(s.popped(x) && s.popped(y));
        }
        assert forall|x: usize, y: usize| t.popped(x) && #[trigger] mutual(adj, x, y) implies t.popped(
            y,
        ) && t.comp[x as int] == t.comp[y as int] by {
            assert(s.popped(x));
        }
    }
}

/// The innermost open node, with all successors visited, and every live node
/// met after it reach each other.
pub proof fn lemma_segment(adj: Adjacency, s: State, y: usize)
    requires
        s.inv(adj),
        s.frames.len() > 0,
        s.live(y),
        s.at(s.frames.last().node) <= s.at(y),
    ensures
        mutual(adj, s.frames.last().node, y),
{
    let last = s.frames.len() - 1;
    assert(s.frames[last] == s.frames.last());
    let i = s.risen(adj, y);
    assert(s.live(s.frames[last].node));
    if i < last {
        assert(s.at(s.frames[i].node) < s.at(s.frames[last].node));
    }
    assert(reach(adj, s.frames[i].node, s.frames[last].node));
    lemma_reach_trans(adj, y, s.frames[i].node, s.frames[last].node);
}

/// The invariant after the innermost frame is closed where its node reaches a
/// live node that was met before it.
pub proof fn lemma_leave(adj: Adjacency, s: State)
    requires
        s.inv(adj),
        s.frames.len() > 0,
        s.frames.last().next == adj[s.frames.last().node as int].len(),
        s.low[s.frames.last().node as int] != s.at(s.frames.last().node),
    ensures
        s.left().inv(adj),
{
    let last = s.frames.len() - 1;
    let top = s.frames.last();
    let node = top.node;
    let t = s.left();
    assert(s.frames[last] == top);
    let low = s.lowest(adj, last);
    assert(s.low[node as int] < s.at(node));
    // The node below which the innermost one reaches reaches an open node
    // that stays open.
    let j = s.risen(adj, low);
    assert(j < last) by {
        if j == last {
            assert(s.at(node) <= s.at(low));
        }
    }
    assert(last > 0);
    let parent = s.frames[last - 1].node;
    assert(t.frames == s.frames.drop_last());
    assert(t.seen == s.seen && t.order == s.order && t.index == s.index && t.stack == s.stack
        && t.on_stack == s.on_stack && t.comp == s.comp && t.sccs == s.sccs);
    assert(t.low.len() == s.low.len());
    lemma_tables_kept(adj, s, t);
    assert(forall|y: usize| #[trigger] t.live(y) <==> s.live(y));
    assert(forall|y: usize| #[trigger] t.at(y) == s.at(y));
    assert(forall|i: int| 0 <= i < last ==> #[trigger] t.frames[i] == s.frames[i]);
    assert(s.live(parent) && s.live(node));
    assert(s.at(s.frames[last - 1].node) < s.at(s.frames[last].node));
    assert(t.low[parent as int] <= s.low[parent as int] && t.low[parent as int]
        <= s.low[node as int]);
    assert(forall|x: usize| x != parent && x < s.low.len() ==> #[trigger] t.low[x as int] == s.low[x as int]);
    assert(t.framed(adj)) by {
        assert forall|i: int| 0 <= i < t.frames.len() implies t.live(
            (#[trigger] t.frames[i]).node,
        ) && t.frames[i].next <= adj[t.frames[i].node as int].len() by {
            assert(s.live(s.frames[i].node));
        }
        assert forall|i: int, k: int| 0 <= i < k < t.frames.len() implies t.at(
            (#[trigger] t.frames[i]).node,
        ) < t.at((#[trigger] t.frames[k]).node) by {
            assert(s.at(s.frames[i].node) < s.at(s.frames[k].node));
        }
    }
    assert(t.down(adj)) by {
        assert forall|i: int, y: usize|
            0 <= i < t.frames.len() && #[trigger] t.live(y) && t.at((#[trigger] t.frames[i]).node)
                <= t.at(y) implies reach(adj, t.frames[i].node, y) by {
            assert(s.live(y) && s.at(s.frames[i].node) <= s.at(y));
        }
    }
    assert(t.up(adj)) by {
        assert forall|y: usize| #[trigger] t.live(y) implies exists|i: int| #[trigger]
            t.rises(adj, y, i) by {
            assert(s.live(y));
            let i = s.risen(adj, y);
            if i < last {
                assert(t.frames[i] == s.frames[i]);
                assert(t.rises(adj, y, i));
            } else {
                lemma_reach_trans(adj, y, node, low);
                lemma_reach_trans(adj, y, low, s.frames[j].node);
                assert(t.frames[j] == s.frames[j]);
                assert(t.rises(adj, y, j));
            }
        }
        reveal(State::up);
    }
    // Nothing of the innermost node was pending.
    assert forall|y: usize, k: int|
        #[trigger] s.pending(y, k) && 0 <= k < adj[y as int].len() implies t.pending(y, k) by {
        let i = choose|i: int|
            0 <= i < s.frames.len() && (#[trigger] s.frames[i]).node == y && s.frames[i].next <= k;
        assert(i < last);
        assert(t.frames[i] == s.frames[i]);
    }
    assert(t.explored(adj)) by {
        reveal(State::explored);
        assert forall|y: usize, k: int|
            #![trigger t.live(y), adj[y as int][k]]
            t.live(y) && 0 <= k < adj[y as int].len() implies t.seen[adj[y as int][k] as int]
            || t.pending(y, k) by {
            assert(s.live(y));
            assert(s.seen[adj[y as int][k] as int] || s.pending(y, k));
        }
    }
    assert(t.low_sound(adj)) by {
        assert forall|i: int| 0 <= i < t.frames.len() implies t.low[(#[trigger] t.frames[i]).node as int]
            <= t.at(t.frames[i].node) && exists|u: usize| #[trigger] t.lows_to(adj, i, u) by {
            assert(t.frames[i] == s.frames[i]);
            let u = s.lowest(adj, i);
            if i == last - 1 {
                if s.low[node as int] < s.low[parent as int] {
                    assert(reach(adj, s.frames[last - 1].node, node));
                    lemma_reach_trans(adj, parent, node, low);
                    assert(t.lows_to(adj, i, low));
                } else {
                    assert(t.lows_to(adj, i, u));
                }
            } else {
                assert(s.at(s.frames[i].node) < s.at(s.frames[last - 1].node));
                assert(t.lows_to(adj, i, u));
            }
        }
        reveal(State::low_sound);
    }
    assert(t.low_complete(adj)) by {
        reveal(State::low_complete);
        assert forall|y: usize, k: int, i: int|
            #![trigger t.owner(i, y), adj[y as int][k]]
            t.live(y) && 0 <= k < adj[y as int].len() && t.live(adj[y as int][k]) && !t.pending(
                y,
                k,
            ) && t.owner(i, y) implies t.low[t.gray(i) as int] <= t.at(adj[y as int][k]) by {
            assert(s.live(y) && s.live(adj[y as int][k]));
            assert(!s.pending(y, k));
            assert(t.frames[i] == s.frames[i]);
            if i + 1 < t.frames.len() {
                assert(t.frames[i + 1] == s.frames[i + 1]);
                assert(s.owner(i, y));
                assert(s.at(s.frames[i].node) < s.at(s.frames[last - 1].node));
            } else if s.at(y) < s.at(node) {
                assert(s.owner(i, y));
            } else {
                assert(s.owner(last, y));
                assert(s.low[s.gray(last) as int] <= s.at(adj[y as int][k]));
            }
        }
    }
}

/// Whether `t` is `s` after the component of the innermost open node is taken
/// off the stack.
pub open spec fn component_taken(s: State, t: State, component: Seq<usize>, p: int) -> bool {
    let node = s.frames.last().node;
    &&& t.seen == s.seen
    &&& t.order == s.order
    &&& t.index == s.index
    &&& t.low == s.low
    &&& t.frames == s.frames
    &&& 0 <= p < s.stack.len()
    &&& s.stack[p] == node
    &&& t.stack == s.stack.take(p)
    &&& t.on_stack.len() == s.on_stack.len()
    &&& t.comp.len() == s.comp.len()
    &&& forall|v: usize| #[trigger]
        t.live(v) <==> s.live(v) && s.at(v) < s.at(node)
    &&& forall|v: usize| #[trigger]
        component.contains(v) <==> s.live(v) && s.at(node) <= s.at(v)
    &&& forall|v: usize|
        v < s.comp.len() ==> #[trigger] t.comp[v as int] == (if s.live(v) && s.at(node) <= s.at(v) {
            s.sccs.len() as usize
        } else {
            s.comp[v as int]
        })
    &&& component.no_duplicates()
    &&& component.len() > 0
    &&& t.sccs == s.sccs.push(component)
    &&& s.sccs.len() <= usize::MAX
}

/// Where the innermost open node reaches no live node that was met before it,
/// its successors and those of the live nodes met after it are among these or
/// have components.
proof fn lemma_segment_closed(adj: Adjacency, s: State, a: usize, b: usize)
    requires
        s.inv(adj),
        s.frames.len() > 0,
        s.frames.last().next == adj[s.frames.last().node as int].len(),
        s.low[s.frames.last().node as int] == s.at(s.frames.last().node),
        s.live(a),
        s.at(s.frames.last().node) <= s.at(a),
        edge(adj, a, b),
    ensures
        s.popped(b) || (s.live(b) && s.at(s.frames.last().node) <= s.at(b)),
{
    let last = s.frames.len() - 1;
    let node = s.frames.last().node;
    assert(s.frames[last] == s.frames.last());
    let k = choose|k: int| 0 <= k < adj[a as int].len() && adj[a as int][k] == b;
    assert(adj[a as int][k] == b);
    assert(s.seen[a as int]);
    assert(!s.pending(a, k)) by {
        if s.pending(a, k) {
            let i = choose|i: int|
                0 <= i < s.frames.len() && (#[trigger] s.frames[i]).node == a && s.frames[i].next
                    <= k;
            if i < last {
                assert(s.at(s.frames[i].node) < s.at(s.frames[last].node));
            }
        }
    }
    assert(s.seen[b as int]) by {
        reveal(State::explored);
    }
    if s.live(b) {
        assert(s.owner(last, a));
        assert(s.low[s.gray(last) as int] <= s.at(adj[a as int][k])) by {
            reveal(State::low_complete);
        }
    }
}

/// The invariant after the component of the innermost open node is taken off
/// the stack and its frame is closed.
pub proof fn lemma_finish(adj: Adjacency, s: State, t: State, component: Seq<usize>, p: int)
    requires
        s.inv(adj),
        s.frames.len() > 0,
        s.frames.last().next == adj[s.frames.last().node as int].len(),
        s.low[s.frames.last().node as int] == s.at(s.frames.last().node),
        component_taken(s, t, component, p),
    ensures
        t.left().inv(adj),
        t.left() == (State { frames: t.frames.drop_last(), ..t }),
{
    let last = s.frames.len() - 1;
    let node = s.frames.last().node;
    let k = s.sccs.len() as usize;
    assert(s.frames[last] == s.frames.last());
    assert(s.live(node));
    let z = State { frames: t.frames.drop_last(), ..t };
    assert(t.left() == z) by {
        if last > 0 {
            s.lowest(adj, last - 1);
            assert(s.at(s.frames[last - 1].node) < s.at(s.frames[last].node));
        }
    }
    assert(forall|v: usize| #[trigger] z.live(v) <==> t.live(v));
    assert(forall|v: usize| #[trigger] z.at(v) == s.at(v));
    assert forall|v: usize| #[trigger] z.popped(v) <==> s.popped(v) || (s.live(v) && s.at(node)
        <= s.at(v)) by {
        if s.live(v) {
            assert(s.seen[v as int]);
        }
        assert(z.live(v) <==> s.live(v) && s.at(v) < s.at(node));
    }
    assert(forall|i: int| 0 <= i < last ==> #[trigger] z.frames[i] == s.frames[i]);
    assert(z.ordered()) by {
        assert forall|i: int| 0 <= i < z.order.len() implies (#[trigger] z.order[i])
            < z.seen.len() && z.seen[z.order[i] as int] && z.at(z.order[i]) == i by {
            assert(s.seen[s.order[i] as int]);
        }
        assert forall|w: usize| w < z.seen.len() && #[trigger] z.seen[w as int] implies z.at(w)
            < z.order.len() && z.order[z.at(w) as int] == w by {
            assert(s.seen[w as int]);
        }
    }
    assert(z.stacked()) by {
        assert forall|q: int| 0 <= q < z.stack.len() implies z.live(#[trigger] z.stack[q]) by {
            assert(s.live(s.stack[q]));
            assert(s.at(s.stack[q]) < s.at(s.stack[p]));
            assert(t.live(s.stack[q]));
        }
        assert forall|w: usize| #[trigger] z.live(w) implies z.seen[w as int] && z.stack.contains(
            w,
        ) by {
            assert(t.live(w));
            assert(s.live(w));
            let q = choose|q: int| 0 <= q < s.stack.len() && s.stack[q] == w;
            if q > p {
                assert(s.at(s.stack[p]) < s.at(s.stack[q]));
            }
            assert(q < p);
            assert(z.stack[q] == w);
        }
        assert forall|a: int, b: int| 0 <= a < b < z.stack.len() implies z.at(
            #[trigger] z.stack[a],
        ) < z.at(#[trigger] z.stack[b]) by {
            assert(s.at(s.stack[a]) < s.at(s.stack[b]));
        }
    }
    assert(z.framed(adj)) by {
        assert forall|i: int| 0 <= i < z.frames.len() implies z.live(
            (#[trigger] z.frames[i]).node,
        ) && z.frames[i].next <= adj[z.frames[i].node as int].len() by {
            assert(s.live(s.frames[i].node));
            assert(s.at(s.frames[i].node) < s.at(s.frames[last].node));
            assert(t.live(s.frames[i].node));
        }
        assert forall|i: int, j: int| 0 <= i < j < z.frames.len() implies z.at(
            (#[trigger] z.frames[i]).node,
        ) < z.at((#[trigger] z.frames[j]).node) by {
            assert(s.at(s.frames[i].node) < s.at(s.frames[j].node));
        }
    }
    assert(z.down(adj)) by {
        assert forall|i: int, y: usize|
            0 <= i < z.frames.len() && #[trigger] z.live(y) && z.at((#[trigger] z.frames[i]).node)
                <= z.at(y) implies reach(adj, z.frames[i].node, y) by {
            assert(t.live(y));
            assert(s.live(y) && s.at(s.frames[i].node) <= s.at(y));
        }
    }
    assert(z.up(adj)) by {
        assert forall|y: usize| #[trigger] z.live(y) implies exists|i: int| #[trigger]
            z.rises(adj, y, i) by {
            assert(t.live(y));
            let i = s.risen(adj, y);
            assert(i < last);
            assert(z.frames[i] == s.frames[i]);
            assert(z.rises(adj, y, i));
        }
        reveal(State::up);
    }
    assert(z.explored(adj)) by {
        reveal(State::explored);
        assert forall|y: usize, e: int|
            #![trigger z.live(y), adj[y as int][e]]
            z.live(y) && 0 <= e < adj[y as int].len() implies z.seen[adj[y as int][e] as int]
            || z.pending(y, e) by {
            assert(t.live(y));
            assert(s.live(y));
            if !s.seen[adj[y as int][e] as int] {
                let i = choose|i: int|
                    0 <= i < s.frames.len() && (#[trigger] s.frames[i]).node == y
                        && s.frames[i].next <= e;
                assert(i < last);
                assert(z.frames[i] == s.frames[i]);
            }
        }
    }
    assert(z.low_sound(adj)) by {
        assert forall|i: int| 0 <= i < z.frames.len() implies z.low[(#[trigger] z.frames[i]).node as int]
            <= z.at(z.frames[i].node) && exists|u: usize| #[trigger] z.lows_to(adj, i, u) by {
            let u = s.lowest(adj, i);
            assert(s.at(s.frames[i].node) < s.at(s.frames[last].node));
            assert(t.live(u));
            assert(z.lows_to(adj, i, u));
        }
        reveal(State::low_sound);
    }
    assert(z.low_complete(adj)) by {
        reveal(State::low_complete);
        assert forall|y: usize, e: int, i: int|
            #![trigger z.owner(i, y), adj[y as int][e]]
            z.live(y) && 0 <= e < adj[y as int].len() && z.live(adj[y as int][e]) && !z.pending(
                y,
                e,
            ) && z.owner(i, y) implies z.low[z.gray(i) as int] <= z.at(adj[y as int][e]) by {
            assert(t.live(y) && t.live(adj[y as int][e]));
            assert(z.frames[i] == s.frames[i]);
            if i + 1 < z.frames.len() {
                assert(z.frames[i + 1] == s.frames[i + 1]);
            }
            assert(s.owner(i, y));
            assert(!s.pending(y, e)) by {
                if s.pending(y, e) {
                    let j = choose|j: int|
                        0 <= j < s.frames.len() && (#[trigger] s.frames[j]).node == y
                            && s.frames[j].next <= e;
                    assert(j < last);
                    assert(z.frames[j] == s.frames[j]);
                }
            }
        }
    }
    assert(z.closed(adj)) by {
        reveal(State::closed);
        reveal(State::classes);
        assert forall|a: usize, b: usize| z.popped(a) && #[trigger] edge(adj, a, b) implies z.popped(
            b,
        ) && z.comp[b as int] <= z.comp[a as int] by {
            if s.popped(a) {
                assert(s.popped(b));
            } else {
                lemma_segment_closed(adj, s, a, b);
                if s.popped(b) {
                    assert(s.comp[b as int] < s.sccs.len());
                }
            }
        }
    }
    assert(z.classes(adj)) by {
        reveal(State::classes);
        let inside = Set::new(|v: usize| z.popped(v));
        assert(closed_under(adj, inside)) by {
            reveal(State::closed);
            assert forall|a: usize, b: usize| inside.contains(a) && #[trigger] edge(
                adj,
                a,
                b,
            ) implies inside.contains(b) by {
                assert(z.popped(a));
            }
        }
        assert(z.sccs[k as int] == component);
        assert forall|v: usize| #[trigger] z.popped(v) implies z.comp[v as int] < z.sccs.len()
            && z.sccs[z.comp[v as int] as int].contains(v) by {
            if s.popped(v) {
                assert(s.sccs[s.comp[v as int] as int].contains(v));
                assert(z.sccs[s.comp[v as int] as int] == s.sccs[s.comp[v as int] as int]);
            } else {
                assert(component.contains(v));
            }
        }
        assert forall|e: int, v: usize| 0 <= e < z.sccs.len() && #[trigger] z.sccs[e].contains(
            v,
        ) implies z.popped(v) && z.comp[v as int] == e by {
            if e < k {
                assert(z.sccs[e] == s.sccs[e]);
                assert(s.sccs[e].contains(v));
                assert(s.popped(v));
            } else {
                assert(component.contains(v));
            }
        }
        assert forall|e: int| 0 <= e < z.sccs.len() implies (#[trigger] z.sccs[e]).len() > 0
            && z.sccs[e].no_duplicates() by {
            if e < k {
                assert(z.sccs[e] == s.sccs[e]);
            }
        }
        assert forall|a: usize, b: usize|
            z.popped(a) && z.popped(b) && z.comp[a as int] == z.comp[b as int] implies #[trigger] mutual(
            adj,
            a,
            b,
        ) by {
            if s.popped(a) {
                assert(s.comp[a as int] < k);
                assert(s.popped(b));
                assert(s.comp[a as int] == s.comp[b as int]);
            } else {
                if s.popped(b) {
                    assert(s.comp[b as int] < k);
                }
                lemma_segment(adj, s, a);
                lemma_segment(adj, s, b);
                lemma_reach_trans(adj, a, node, b);
                lemma_reach_trans(adj, b, node, a);
            }
        }
        assert forall|a: usize, b: usize| z.popped(a) && #[trigger] mutual(adj, a, b) implies z.popped(
            b,
        ) && z.comp[a as int] == z.comp[b as int] by {
            if s.popped(a) {
                assert(s.popped(b) && s.comp[a as int] == s.comp[b as int]);
            } else {
                assert(inside.contains(a));
                lemma_reach_closed(adj, inside, a, b);
                if s.popped(b) {
                    assert(mutual(adj, b, a));
                    assert(s.popped(a));
                }
            }
        }
    }
}

} // verus!
