//! Tarjan's search for strongly connected components.

use vstd::prelude::*;

use super::reach::{edge, is_graph, mutual, Adjacency};
use super::state::{
    component_taken, lemma_child, lemma_finish, lemma_leave, lemma_pass, lemma_root, lemma_start,
    start, Frame, State,
};

verus! {

/// The graph that lists of successors describe.
pub open spec fn graph(adj: Seq<Vec<usize>>) -> Adjacency {
    Seq::new(adj.len(), |a: int| adj[a]@)
}

/// The components of a graph: each is a list of nodes, callees first.
pub struct SccPartition {
    /// The components.
    pub sccs: Vec<Vec<usize>>,
    /// The component of each node.
    pub scc_index: Vec<usize>,
}

impl SccPartition {
    /// Whether the components are those of `adj`: every node is in exactly the
    /// component that it is said to be in, two nodes share a component exactly
    /// where each reaches the other, and edges go to the same component or an
    /// earlier one.
    pub open spec fn partitions(self, adj: Adjacency) -> bool {
        &&& self.scc_index@.len() == adj.len()
        &&& forall|v: usize|
            v < adj.len() ==> (#[trigger] self.scc_index@[v as int]) < self.sccs@.len()
        &&& forall|k: int, v: usize|
            #![trigger self.sccs@[k]@.contains(v)]
            0 <= k < self.sccs@.len() ==> (self.sccs@[k]@.contains(v) <==> v < adj.len()
                && self.scc_index@[v as int] == k)
        &&& forall|k: int|
            0 <= k < self.sccs@.len() ==> (#[trigger] self.sccs@[k])@.len() > 0
                && self.sccs@[k]@.no_duplicates()
        &&& forall|a: usize, b: usize|
            #![trigger mutual(adj, a, b)]
            a < adj.len() && b < adj.len() ==> (mutual(adj, a, b) <==> self.scc_index@[a as int]
                == self.scc_index@[b as int])
        &&& forall|a: usize, b: usize| #[trigger]
            edge(adj, a, b) ==> self.scc_index@[b as int] <= self.scc_index@[a as int]
    }
}

struct Search {
    seen: Vec<bool>,
    order: Vec<usize>,
    index: Vec<usize>,
    low: Vec<usize>,
    stack: Vec<usize>,
    on_stack: Vec<bool>,
    comp: Vec<usize>,
    sccs: Vec<Vec<usize>>,
    frames: Vec<Frame>,
}

spec fn lists(sccs: Seq<Vec<usize>>) -> Seq<Seq<usize>> {
    Seq::new(sccs.len(), |k: int| sccs[k]@)
}

/// Number of nodes that were not met.
spec fn unseen(seen: Seq<bool>) -> nat
    decreases seen.len(),
{
    if seen.len() == 0 {
        0
    } else {
        unseen(seen.drop_last()) + if seen.last() {
            0nat
        } else {
            1nat
        }
    }
}

proof fn lemma_unseen(seen: Seq<bool>, v: int)
    requires
        0 <= v < seen.len(),
        !seen[v],
    ensures
        unseen(seen) == unseen(seen.update(v, true)) + 1,
    decreases seen.len(),
{
    let after = seen.update(v, true);
    if v == seen.len() - 1 {
        assert(after.drop_last() == seen.drop_last());
    } else {
        lemma_unseen(seen.drop_last(), v);
        assert(after.drop_last() == seen.drop_last().update(v, true));
    }
}

/// Number of steps that the open nodes still ask for.
spec fn open_steps(adj: Adjacency, frames: Seq<Frame>) -> nat
    decreases frames.len(),
{
    if frames.len() == 0 {
        0
    } else {
        let top = frames.last();
        open_steps(adj, frames.drop_last()) + 1 + if top.next < adj[top.node as int].len() {
            (adj[top.node as int].len() - top.next) as nat
        } else {
            0
        }
    }
}

impl Search {
    spec fn view(self) -> State {
        State {
            seen: self.seen@,
            order: self.order@,
            index: self.index@,
            low: self.low@,
            stack: self.stack@,
            on_stack: self.on_stack@,
            comp: self.comp@,
            sccs: lists(self.sccs@),
            frames: self.frames@,
        }
    }

    fn new(n: usize) -> (r: Search)
        ensures
            r@ == start(n as nat),
    {
        let mut seen: Vec<bool> = Vec::new();
        let mut index: Vec<usize> = Vec::new();
        let mut low: Vec<usize> = Vec::new();
        let mut on_stack: Vec<bool> = Vec::new();
        let mut comp: Vec<usize> = Vec::new();
        let mut i: usize = 0;
        while i < n
            invariant
                i <= n,
                seen@ == Seq::new(i as nat, |j: int| false),
                index@ == Seq::new(i as nat, |j: int| 0usize),
                low@ == Seq::new(i as nat, |j: int| 0usize),
                on_stack@ == Seq::new(i as nat, |j: int| false),
                comp@ == Seq::new(i as nat, |j: int| 0usize),
            decreases n - i,
        {
            seen.push(false);
            index.push(0);
            low.push(0);
            on_stack.push(false);
            comp.push(0);
            i += 1;
        }
        let r = Search {
            seen,
            order: Vec::new(),
            index,
            low,
            stack: Vec::new(),
            on_stack,
            comp,
            sccs: Vec::new(),
            frames: Vec::new(),
        };
        assert(r@ =~= start(n as nat));
        r
    }

    fn push_node(&mut self, v: usize)
        requires
            v < old(self).seen@.len(),
            old(self)@.sized(old(self).seen@.len() as int),
        ensures
            final(self)@ == old(self)@.met(v),
    {
        let at: usize = self.order.len();
        self.seen.set(v, true);
        self.index.set(v, at);
        self.low.set(v, at);
        self.order.push(v);
        self.stack.push(v);
        self.on_stack.set(v, true);
        self.frames.push(Frame { node: v, next: 0 });
    }

    fn lower(&mut self, v: usize, to: usize)
        requires
            v < old(self).low@.len(),
        ensures
            final(self)@ == old(self)@.lowered(v, to),
    {
        if to < self.low[v] {
            self.low.set(v, to);
        }
    }

    /// Take the component of the innermost open node off the stack.
    fn pop_component(&mut self, node: usize, Ghost(adj): Ghost<Adjacency>)
        requires
            old(self)@.inv(adj),
            old(self)@.frames.len() > 0,
            old(self)@.frames.last().node == node,
        ensures
            exists|c: Seq<usize>, p: int| #[trigger] component_taken(old(self)@, final(self)@, c, p),
    {
        let k: usize = self.sccs.len();
        let ghost s = self@;
        let ghost last = s.frames.len() - 1;
        proof {
            assert(s.frames[last].node == node);
            assert(s.live(node));
        }
        let ghost p = choose|p: int| 0 <= p < s.stack.len() && s.stack[p] == node;
        let mut component: Vec<usize> = Vec::new();
        let mut done = false;
        while !done
            invariant
                s.inv(adj),
                s.frames.len() > 0,
                s.frames.last().node == node,
                0 <= p < s.stack.len(),
                s.stack[p] == node,
                k == s.sccs.len(),
                self.seen@ == s.seen,
                self.order@ == s.order,
                self.index@ == s.index,
                self.low@ == s.low,
                self.frames@ == s.frames,
                lists(self.sccs@) == s.sccs,
                self.stack@.len() <= s.stack.len(),
                self.stack@ == s.stack.take(self.stack@.len() as int),
                done ==> self.stack@.len() == p,
                !done ==> self.stack@.len() > p,
                self.on_stack@.len() == s.on_stack.len(),
                self.comp@.len() == s.comp.len(),
                component@.len() == s.stack.len() - self.stack@.len(),
                forall|i: int|
                    0 <= i < component@.len() ==> #[trigger] component@[i] == s.stack[s.stack.len()
                        - 1 - i],
                forall|v: usize|
                    v < s.on_stack.len() ==> (#[trigger] self.on_stack@[v as int] <==> s.live(v)
                        && !component@.contains(v)),
                forall|v: usize|
                    v < s.comp.len() ==> #[trigger] self.comp@[v as int] == (if component@.contains(
                        v,
                    ) {
                        k
                    } else {
                        s.comp[v as int]
                    }),
            decreases self.stack@.len(),
        {
            let ghost before = component@;
            let ghost at = self.stack@.len() - 1;
            match self.stack.pop() {
                Some(popped) => {
                    proof {
                        assert(popped == s.stack[at]);
                        assert(s.live(s.stack[at]));
                    }
                    self.on_stack.set(popped, false);
                    self.comp.set(popped, k);
                    component.push(popped);
                    proof {
                        assert forall|v: usize| #[trigger] component@.contains(v) <==> before.contains(v) || v
                            == popped by {
                            if before.contains(v) {
                                let i = choose|i: int| 0 <= i < before.len() && before[i] == v;
                                assert(component@[i] == v);
                            }
                            assert(component@[before.len() as int] == popped);
                        }
                        assert(at != p ==> popped != node) by {
                            if at > p {
                                assert(s.at(s.stack[p]) < s.at(s.stack[at]));
                            }
                        }
                    }
                    if popped == node {
                        done = true;
                    }
                },
                None => {
                    done = true;
                },
            }
        }
        let ghost c = component@;
        self.sccs.push(component);
        proof {
            let t = self@;
            assert(s.stack.take(p) == t.stack);
            assert(t.sccs =~= s.sccs.push(c));
            assert forall|v: usize| #[trigger] c.contains(v) <==> s.live(v) && s.at(node)
                <= s.at(v) by {
                if c.contains(v) {
                    let i = choose|i: int| 0 <= i < c.len() && c[i] == v;
                    let q = s.stack.len() - 1 - i;
                    assert(s.live(s.stack[q]));
                    if q > p {
                        assert(s.at(s.stack[p]) < s.at(s.stack[q]));
                    }
                }
                if s.live(v) && s.at(node) <= s.at(v) {
                    let q = choose|q: int| 0 <= q < s.stack.len() && s.stack[q] == v;
                    if q < p {
                        assert(s.at(s.stack[q]) < s.at(s.stack[p]));
                    }
                    assert(c[s.stack.len() - 1 - q] == v);
                }
            }
            assert(c.no_duplicates()) by {
                assert forall|i: int, j: int| 0 <= i < c.len() && 0 <= j < c.len() && i
                    != j implies c[i] != c[j] by {
                    let a = s.stack.len() - 1 - i;
                    let b = s.stack.len() - 1 - j;
                    if a < b {
                        assert(s.at(s.stack[a]) < s.at(s.stack[b]));
                    } else {
                        assert(s.at(s.stack[b]) < s.at(s.stack[a]));
                    }
                }
            }
            assert forall|v: usize| #[trigger] t.live(v) <==> s.live(v) && s.at(v) < s.at(
                node,
            ) by {
                if v < s.on_stack.len() {
                    assert(t.on_stack[v as int] <==> s.live(v) && !c.contains(v));
                }
            }
            assert forall|v: usize| v < s.comp.len() implies #[trigger] t.comp[v as int] == (if s.live(
                v,
            ) && s.at(node) <= s.at(v) {
                s.sccs.len() as usize
            } else {
                s.comp[v as int]
            }) by {
                assert(c.contains(v) <==> s.live(v) && s.at(node) <= s.at(v));
            }
            assert(component_taken(s, t, c, p));
        }
    }

    /// Search from a node that was not met.
    fn strongconnect(&mut self, adj: &Vec<Vec<usize>>, from: usize)
        requires
            old(self)@.inv(graph(adj@)),
            old(self)@.frames.len() == 0,
            from < adj@.len(),
            !old(self)@.seen[from as int],
        ensures
            final(self)@.inv(graph(adj@)),
            final(self)@.frames.len() == 0,
            final(self)@.seen[from as int],
            forall|v: int|
                0 <= v < adj@.len() && old(self)@.seen[v] ==> #[trigger] final(self)@.seen[v],
    {
        let ghost g = graph(adj@);
        proof {
            assert(self.order.len() == self@.order.len());
            lemma_root(g, self@, from);
        }
        self.push_node(from);
        while self.frames.len() > 0
            invariant
                g == graph(adj@),
                self@.inv(g),
                from < adj@.len(),
                self@.seen[from as int],
                forall|v: int|
                    0 <= v < adj@.len() && old(self)@.seen[v] ==> #[trigger] self@.seen[v],
            decreases unseen(self@.seen), open_steps(g, self@.frames),
        {
            let ghost s = self@;
            let last: usize = self.frames.len() - 1;
            let top = self.frames[last];
            let node: usize = top.node;
            proof {
                assert(s.frames[last as int] == top);
                assert(s.live(node));
                assert(g[node as int] == adj@[node as int]@);
            }
            if top.next < adj[node].len() {
                let next: usize = adj[node][top.next];
                proof {
                    assert(g[node as int][top.next as int] == next);
                }
                self.frames.set(last, Frame { node, next: top.next + 1 });
                assert(self@ == s.advanced());
                proof {
                    lemma_step(g, s);
                }
                if !self.seen[next] {
                    proof {
                        assert(self.order.len() == s.order.len());
                        lemma_child(g, s);
                        lemma_unseen(s.seen, next as int);
                    }
                    self.push_node(next);
                } else {
                    proof {
                        lemma_pass(g, s);
                    }
                    if self.on_stack[next] {
                        let at: usize = self.index[next];
                        self.lower(node, at);
                    }
                }
            } else {
                let low: usize = self.low[node];
                let ghost mut taken = s;
                if low == self.index[node] {
                    self.pop_component(node, Ghost(g));
                    proof {
                        taken = self@;
                        let (c, p) = choose|c: Seq<usize>, p: int| #[trigger]
                            component_taken(s, taken, c, p);
                        lemma_finish(g, s, taken, c, p);
                    }
                } else {
                    proof {
                        lemma_leave(g, s);
                    }
                }
                self.frames.pop();
                if self.frames.len() > 0 {
                    let parent: usize = self.frames[self.frames.len() - 1].node;
                    proof {
                        assert(self@.frames[self@.frames.len() - 1] == s.frames[s.frames.len() - 2]);
                        assert(s.live(s.frames[s.frames.len() - 2].node));
                    }
                    self.lower(parent, low);
                }
                assert(self@ == taken.left());
            }
        }
    }
}

/// Going on to the next successor takes one of the steps that are left.
proof fn lemma_step(adj: Adjacency, s: State)
    requires
        s.frames.len() > 0,
        s.frames.last().next < adj[s.frames.last().node as int].len(),
        adj[s.frames.last().node as int].len() <= usize::MAX,
    ensures
        open_steps(adj, s.advanced().frames) < open_steps(adj, s.frames),
{
    assert(s.advanced().frames.drop_last() == s.frames.drop_last());
}

/// The strongly connected components of the graph with the given successors.
pub fn scc_partition(adj: &Vec<Vec<usize>>) -> (r: SccPartition)
    requires
        is_graph(graph(adj@)),
    ensures
        r.partitions(graph(adj@)),
{
    let ghost g = graph(adj@);
    let n: usize = adj.len();
    let mut search = Search::new(n);
    proof {
        lemma_start(g);
    }
    let mut v: usize = 0;
    while v < n
        invariant
            n == adj@.len(),
            v <= n,
            g == graph(adj@),
            search@.inv(g),
            search@.frames.len() == 0,
            forall|w: int| 0 <= w < v ==> #[trigger] search@.seen[w],
        decreases n - v,
    {
        if !search.seen[v] {
            search.strongconnect(adj, v);
        }
        v += 1;
    }
    let ghost s = search@;
    let r = SccPartition { sccs: search.sccs, scc_index: search.comp };
    proof {
        reveal(State::classes);
        reveal(State::closed);
        assert forall|w: usize| w < n implies #[trigger] s.popped(w) by {
            if s.live(w) {
                s.risen(g, w);
            }
            assert(s.seen[w as int]);
        }
        assert forall|k: int, w: usize|
            #![trigger r.sccs@[k]@.contains(w)]
            0 <= k < r.sccs@.len() implies (r.sccs@[k]@.contains(w) <==> w < g.len()
            && r.scc_index@[w as int] == k) by {
            assert(s.sccs[k] == r.sccs@[k]@);
            if s.sccs[k].contains(w) {
                assert(s.popped(w));
            }
            if w < g.len() {
                assert(s.popped(w));
            }
        }
        assert forall|w: usize| w < g.len() implies (#[trigger] r.scc_index@[w as int])
            < r.sccs@.len() by {
            assert(s.popped(w));
        }
        assert forall|k: int| 0 <= k < r.sccs@.len() implies (#[trigger] r.sccs@[k])@.len() > 0
            && r.sccs@[k]@.no_duplicates() by {
            assert(s.sccs[k] == r.sccs@[k]@);
        }
        assert forall|a: usize, b: usize|
            #![trigger mutual(g, a, b)]
            a < g.len() && b < g.len() implies (mutual(g, a, b) <==> r.scc_index@[a as int]
            == r.scc_index@[b as int]) by {
            assert(s.popped(a) && s.popped(b));
        }
        assert forall|a: usize, b: usize| #[trigger] edge(g, a, b) implies r.scc_index@[b as int]
            <= r.scc_index@[a as int] by {
            assert(s.popped(a));
        }
    }
    r
}

} // verus!
