//! Which functions of a package are recursive, and which may diverge.

use vstd::prelude::*;

use super::graph::{
    ascending, build_call_graph, call_graph, calls, id_less, insert_id, rows_show, CallGraph, Calls,
};
use super::reach::{
    edge, is_graph, lemma_reach_edge, lemma_reach_trans, mutual, reach, walk, Adjacency,
};
use super::tarjan::{graph, scc_partition, SccPartition};
use crate::intern::Symbol;
use crate::list::List;
use crate::package::{FnDecl, ResolvedPackage};
use crate::ty::BindingId;

verus! {

/// Whether `a` leads to `b` by `n` calls.
pub open spec fn call_walk(calls_of: Calls, a: BindingId, b: BindingId, n: nat) -> bool
    decreases n,
{
    if n == 0 {
        a == b
    } else {
        exists|c: BindingId| #[trigger]
            calls(calls_of, a, c) && call_walk(calls_of, c, b, (n - 1) as nat)
    }
}

/// Whether `a` leads to `b` by any number of calls.
#[verifier::opaque]
pub open spec fn leads_to(calls_of: Calls, a: BindingId, b: BindingId) -> bool {
    exists|n: nat| call_walk(calls_of, a, b, n)
}

/// Whether a function calls or is called.
pub open spec fn known(calls_of: Calls, a: BindingId) -> bool {
    calls_of.contains_key(a) || exists|c: BindingId| calls(calls_of, c, a)
}

/// Whether two functions lead to each other.
pub open spec fn entangled(calls_of: Calls, a: BindingId, b: BindingId) -> bool {
    leads_to(calls_of, a, b) && leads_to(calls_of, b, a)
}

/// Whether a function leads back to itself by at least one call.
pub open spec fn recursive(calls_of: Calls, a: BindingId) -> bool {
    exists|b: BindingId| #[trigger] calls(calls_of, a, b) && leads_to(calls_of, b, a)
}

/// Whether the first function named `name` has a termination measure.
pub open spec fn measured(functions: List<FnDecl>, name: Symbol) -> bool
    decreases functions,
{
    match functions {
        List::Nil => false,
        List::Cons(f, rest) => if f.name == name {
            f.has_decreases
        } else {
            measured(*rest, name)
        },
    }
}

/// Whether a function has a termination measure.
pub open spec fn has_measure(package: ResolvedPackage, id: BindingId) -> bool {
    match (package.modules.nth(id.module.0 as nat), package.entry(id)) {
        (Some(m), Some(entry)) => measured(m.functions, entry.name),
        _ => false,
    }
}

/// Whether a function may fail to terminate: it is recursive, and no function
/// that it is recursive with has a termination measure.
pub open spec fn diverges(package: ResolvedPackage, a: BindingId) -> bool {
    let calls_of = call_graph(package);
    &&& recursive(calls_of, a)
    &&& forall|b: BindingId| #[trigger] entangled(calls_of, a, b) ==> !has_measure(package, b)
}

proof fn lemma_call_walk_join(
    calls_of: Calls,
    a: BindingId,
    b: BindingId,
    c: BindingId,
    n: nat,
    m: nat,
)
    requires
        call_walk(calls_of, a, b, n),
        call_walk(calls_of, b, c, m),
    ensures
        call_walk(calls_of, a, c, n + m),
    decreases n,
{
    if n > 0 {
        let d = choose|d: BindingId| #[trigger]
            calls(calls_of, a, d) && call_walk(calls_of, d, b, (n - 1) as nat);
        lemma_call_walk_join(calls_of, d, b, c, (n - 1) as nat, m);
        assert((n + m - 1) as nat == (n - 1) as nat + m);
    }
}

proof fn lemma_leads_trans(calls_of: Calls, a: BindingId, b: BindingId, c: BindingId)
    requires
        leads_to(calls_of, a, b),
        leads_to(calls_of, b, c),
    ensures
        leads_to(calls_of, a, c),
{
    reveal(leads_to);
    let n = choose|n: nat| call_walk(calls_of, a, b, n);
    let m = choose|m: nat| call_walk(calls_of, b, c, m);
    lemma_call_walk_join(calls_of, a, b, c, n, m);
}

proof fn lemma_recursive_with(calls_of: Calls, a: BindingId, b: BindingId)
    requires
        entangled(calls_of, a, b),
        a != b,
    ensures
        recursive(calls_of, a),
{
    let c = {
        reveal(leads_to);
        let n = choose|n: nat| call_walk(calls_of, a, b, n);
        let c = choose|c: BindingId| #[trigger]
            calls(calls_of, a, c) && call_walk(calls_of, c, b, (n - 1) as nat);
        assert(leads_to(calls_of, c, b));
        c
    };
    lemma_leads_trans(calls_of, c, b, a);
}

/// Functions that lead to each other share one termination obligation: two
/// different ones are both recursive, and they diverge together or not at all.
/// One measure is enough for all of them.
pub proof fn law_shared_obligation(package: ResolvedPackage, a: BindingId, b: BindingId)
    requires
        entangled(call_graph(package), a, b),
        a != b,
    ensures
        recursive(call_graph(package), a) && recursive(call_graph(package), b),
        diverges(package, a) == diverges(package, b),
        has_measure(package, b) ==> !diverges(package, a),
{
    let calls_of = call_graph(package);
    lemma_recursive_with(calls_of, a, b);
    lemma_recursive_with(calls_of, b, a);
    assert forall|c: BindingId|
        #![trigger entangled(calls_of, a, c)]
        #![trigger entangled(calls_of, b, c)]
        entangled(calls_of, a, c) <==> entangled(calls_of, b, c) by {
        if entangled(calls_of, a, c) {
            lemma_leads_trans(calls_of, b, a, c);
            lemma_leads_trans(calls_of, c, a, b);
        }
        if entangled(calls_of, b, c) {
            lemma_leads_trans(calls_of, a, b, c);
            lemma_leads_trans(calls_of, c, b, a);
        }
    }
}

fn find_measure(functions: &List<FnDecl>, name: Symbol) -> (r: bool)
    ensures
        r == measured(*functions, name),
    decreases functions,
{
    match functions {
        List::Nil => false,
        List::Cons(f, rest) => if f.name == name {
            f.has_decreases
        } else {
            find_measure(rest, name)
        },
    }
}

fn function_has_decreases(id: BindingId, package: &ResolvedPackage) -> (r: bool)
    ensures
        r == has_measure(*package, id),
{
    match (package.modules.get_ref(id.module.0), package.binding(id)) {
        (Some(m), Some(entry)) => find_measure(&m.functions, entry.name),
        _ => false,
    }
}

/// Whether `adj` is the call graph with functions by their positions in
/// `nodes`.
pub open spec fn numbered(calls_of: Calls, nodes: Seq<BindingId>, adj: Adjacency) -> bool {
    &&& ascending(nodes)
    &&& is_graph(adj)
    &&& adj.len() == nodes.len()
    &&& adj.len() <= usize::MAX
    &&& forall|i: usize, j: usize|
        i < nodes.len() && j < nodes.len() ==> (#[trigger] edge(adj, i, j) <==> calls(
            calls_of,
            nodes[i as int],
            nodes[j as int],
        ))
    &&& forall|id: BindingId| #[trigger] known(calls_of, id) <==> nodes.contains(id)
}

proof fn lemma_position(nodes: Seq<BindingId>, id: BindingId) -> (i: usize)
    requires
        nodes.contains(id),
        nodes.len() <= usize::MAX,
    ensures
        i < nodes.len(),
        nodes[i as int] == id,
{
    let i = choose|i: int| 0 <= i < nodes.len() && nodes[i] == id;
    i as usize
}

proof fn lemma_position_unique(nodes: Seq<BindingId>, i: int, j: int)
    requires
        ascending(nodes),
        0 <= i < nodes.len(),
        0 <= j < nodes.len(),
        nodes[i] == nodes[j],
    ensures
        i == j,
{
    if i < j {
        assert(id_less(nodes[i], nodes[j]));
    } else if j < i {
        assert(id_less(nodes[j], nodes[i]));
    }
}

proof fn lemma_walk_calls(
    calls_of: Calls,
    nodes: Seq<BindingId>,
    adj: Adjacency,
    i: usize,
    j: usize,
    n: nat,
)
    requires
        numbered(calls_of, nodes, adj),
        i < nodes.len(),
        j < nodes.len(),
        walk(adj, i, j, n),
    ensures
        call_walk(calls_of, nodes[i as int], nodes[j as int], n),
    decreases n,
{
    if n > 0 {
        let c = choose|c: usize| #[trigger] edge(adj, i, c) && walk(adj, c, j, (n - 1) as nat);
        let k = choose|k: int| 0 <= k < adj[i as int].len() && adj[i as int][k] == c;
        assert(adj[i as int][k] < adj.len());
        lemma_walk_calls(calls_of, nodes, adj, c, j, (n - 1) as nat);
        assert(calls(calls_of, nodes[i as int], nodes[c as int]));
    }
}

proof fn lemma_calls_walk(
    calls_of: Calls,
    nodes: Seq<BindingId>,
    adj: Adjacency,
    i: usize,
    to: BindingId,
    n: nat,
) -> (j: usize)
    requires
        numbered(calls_of, nodes, adj),
        i < nodes.len(),
        call_walk(calls_of, nodes[i as int], to, n),
    ensures
        j < nodes.len(),
        nodes[j as int] == to,
        walk(adj, i, j, n),
    decreases n,
{
    if n == 0 {
        i
    } else {
        let c = choose|c: BindingId| #[trigger]
            calls(calls_of, nodes[i as int], c) && call_walk(calls_of, c, to, (n - 1) as nat);
        assert(known(calls_of, c));
        let k = lemma_position(nodes, c);
        let j = lemma_calls_walk(calls_of, nodes, adj, k, to, (n - 1) as nat);
        assert(edge(adj, i, k));
        j
    }
}

proof fn lemma_reach_leads(
    calls_of: Calls,
    nodes: Seq<BindingId>,
    adj: Adjacency,
    i: usize,
    j: usize,
)
    requires
        numbered(calls_of, nodes, adj),
        i < nodes.len(),
        j < nodes.len(),
    ensures
        reach(adj, i, j) <==> leads_to(calls_of, nodes[i as int], nodes[j as int]),
{
    reveal(reach);
    reveal(leads_to);
    if reach(adj, i, j) {
        let n = choose|n: nat| walk(adj, i, j, n);
        lemma_walk_calls(calls_of, nodes, adj, i, j, n);
    }
    if leads_to(calls_of, nodes[i as int], nodes[j as int]) {
        let n = choose|n: nat| call_walk(calls_of, nodes[i as int], nodes[j as int], n);
        let k = lemma_calls_walk(calls_of, nodes, adj, i, nodes[j as int], n);
        lemma_position_unique(nodes, j as int, k as int);
    }
}

proof fn lemma_leads_known(calls_of: Calls, nodes: Seq<BindingId>, adj: Adjacency, i: usize, to: BindingId)
    requires
        numbered(calls_of, nodes, adj),
        i < nodes.len(),
        leads_to(calls_of, nodes[i as int], to),
    ensures
        nodes.contains(to),
{
    reveal(leads_to);
    let n = choose|n: nat| call_walk(calls_of, nodes[i as int], to, n);
    lemma_calls_walk(calls_of, nodes, adj, i, to, n);
}

/// A node that reaches another one and is reached from it lies on a cycle.
proof fn lemma_cycle(adj: Adjacency, i: usize, j: usize) -> (c: usize)
    requires
        mutual(adj, i, j),
        i != j,
    ensures
        edge(adj, i, c),
        reach(adj, c, i),
{
    let n = {
        reveal(reach);
        choose|n: nat| walk(adj, i, j, n)
    };
    assert(walk(adj, i, j, n)) by {
        reveal(reach);
    }
    let c = choose|c: usize| #[trigger] edge(adj, i, c) && walk(adj, c, j, (n - 1) as nat);
    assert(reach(adj, c, j)) by {
        reveal(reach);
    }
    lemma_reach_trans(adj, c, j, i);
    c
}

/// Whether a component is a cycle.
pub open spec fn cyclic(adj: Adjacency, members: Seq<usize>) -> bool {
    members.len() >= 2 || exists|m: usize| members.contains(m) && #[trigger] edge(adj, m, m)
}

proof fn lemma_recursive(
    calls_of: Calls,
    nodes: Seq<BindingId>,
    adj: Adjacency,
    p: SccPartition,
    i: usize,
)
    requires
        numbered(calls_of, nodes, adj),
        p.partitions(adj),
        i < nodes.len(),
    ensures
        recursive(calls_of, nodes[i as int]) <==> cyclic(
            adj,
            p.sccs@[p.scc_index@[i as int] as int]@,
        ),
{
    let k = p.scc_index@[i as int] as int;
    let members = p.sccs@[k]@;
    let id = nodes[i as int];
    assert(members.contains(i));
    if cyclic(adj, members) {
        let c = if members.len() >= 2 {
            let m = if members[0] == i {
                members[1]
            } else {
                members[0]
            };
            assert(members[0] != members[1]);
            assert(members.contains(m));
            assert(mutual(adj, i, m));
            lemma_cycle(adj, i, m)
        } else {
            let m = choose|m: usize| members.contains(m) && #[trigger] edge(adj, m, m);
            if m == i {
                lemma_reach_edge(adj, m, m);
                m
            } else {
                assert(mutual(adj, i, m));
                lemma_cycle(adj, i, m)
            }
        };
        let e = choose|e: int| 0 <= e < adj[i as int].len() && adj[i as int][e] == c;
        assert(adj[i as int][e] < adj.len());
        lemma_reach_leads(calls_of, nodes, adj, c, i);
        assert(calls(calls_of, id, nodes[c as int]));
    }
    if recursive(calls_of, id) {
        let b = choose|b: BindingId| #[trigger] calls(calls_of, id, b) && leads_to(calls_of, b, id);
        assert(known(calls_of, b));
        let j = lemma_position(nodes, b);
        assert(edge(adj, i, j));
        lemma_reach_edge(adj, i, j);
        lemma_reach_leads(calls_of, nodes, adj, j, i);
        assert(mutual(adj, i, j));
        assert(members.contains(j));
        if i != j {
            let x = choose|x: int| 0 <= x < members.len() && members[x] == i;
            let y = choose|y: int| 0 <= y < members.len() && members[y] == j;
            assert(x != y);
        }
    }
}

fn position(nodes: &Vec<BindingId>, id: BindingId) -> (r: Option<usize>)
    ensures
        match r {
            Some(i) => i < nodes@.len() && nodes@[i as int] == id,
            None => !nodes@.contains(id),
        },
{
    let mut i: usize = 0;
    while i < nodes.len()
        invariant
            i <= nodes@.len(),
            forall|j: int| 0 <= j < i ==> nodes@[j] != id,
        decreases nodes@.len() - i,
    {
        if nodes[i] == id {
            return Some(i);
        }
        i += 1;
    }
    None
}

/// Every function that calls or is called, in ascending order.
fn graph_nodes(rows: &CallGraph, Ghost(calls_of): Ghost<Calls>) -> (r: Vec<BindingId>)
    requires
        rows_show(rows.rows@, calls_of),
    ensures
        ascending(r@),
        forall|id: BindingId| #[trigger] known(calls_of, id) <==> r@.contains(id),
{
    let mut r: Vec<BindingId> = Vec::new();
    let mut i: usize = 0;
    while i < rows.rows.len()
        invariant
            rows_show(rows.rows@, calls_of),
            i <= rows.rows@.len(),
            ascending(r@),
            forall|id: BindingId| #[trigger]
                r@.to_set().contains(id) <==> exists|k: int|
                    0 <= k < i && ((#[trigger] rows.rows@[k]).caller == id
                        || rows.rows@[k].callees@.contains(id)),
        decreases rows.rows@.len() - i,
    {
        let ghost before = r@.to_set();
        let row = &rows.rows[i];
        insert_id(&mut r, row.caller);
        let mut j: usize = 0;
        while j < row.callees.len()
            invariant
                j <= row.callees@.len(),
                ascending(r@),
                forall|id: BindingId| #[trigger]
                    r@.to_set().contains(id) <==> before.contains(id) || id == row.caller
                        || exists|e: int| 0 <= e < j && #[trigger] row.callees@[e] == id,
            decreases row.callees@.len() - j,
        {
            let ghost so_far = r@.to_set();
            insert_id(&mut r, row.callees[j]);
            proof {
                assert forall|id: BindingId| #[trigger] r@.to_set().contains(id) <==> before.contains(
                    id,
                ) || id == row.caller || exists|e: int|
                    0 <= e < j + 1 && #[trigger] row.callees@[e] == id by {
                    assert(r@.to_set().contains(id) <==> so_far.contains(id) || id
                        == row.callees@[j as int]);
                    if exists|e: int| 0 <= e < j + 1 && #[trigger] row.callees@[e] == id {
                        let e = choose|e: int| 0 <= e < j + 1 && #[trigger] row.callees@[e] == id;
                        if e < j {
                            assert(row.callees@[e] == id);
                        }
                    }
                }
            }
            j += 1;
        }
        proof {
            assert forall|id: BindingId| #[trigger] r@.to_set().contains(id) <==> exists|k: int|
                0 <= k < i + 1 && ((#[trigger] rows.rows@[k]).caller == id
                    || rows.rows@[k].callees@.contains(id)) by {
                assert(rows.rows@[i as int] == *row);
                if before.contains(id) {
                    let k = choose|k: int|
                        0 <= k < i && ((#[trigger] rows.rows@[k]).caller == id
                            || rows.rows@[k].callees@.contains(id));
                    assert(rows.rows@[k].caller == id || rows.rows@[k].callees@.contains(id));
                }
            }
        }
        i += 1;
    }
    proof {
        assert forall|id: BindingId| #[trigger] known(calls_of, id) <==> r@.contains(id) by {
            assert(r@.to_set().contains(id) <==> r@.contains(id));
            if calls_of.contains_key(id) {
                let k = choose|k: int|
                    0 <= k < rows.rows@.len() && (#[trigger] rows.rows@[k]).caller == id;
                assert(rows.rows@[k].caller == id);
            }
            if exists|c: BindingId| calls(calls_of, c, id) {
                let c = choose|c: BindingId| calls(calls_of, c, id);
                assert(calls_of.contains_key(c));
                let k = choose|k: int|
                    0 <= k < rows.rows@.len() && (#[trigger] rows.rows@[k]).caller == c;
                assert(rows.rows@[k].callees@.to_set().contains(id));
            }
            if r@.contains(id) {
                let k = choose|k: int|
                    0 <= k < rows.rows@.len() && ((#[trigger] rows.rows@[k]).caller == id
                        || rows.rows@[k].callees@.contains(id));
                let c = rows.rows@[k].caller;
                assert(calls_of.contains_key(c));
                if rows.rows@[k].callees@.contains(id) {
                    assert(rows.rows@[k].callees@.to_set().contains(id));
                    assert(calls(calls_of, c, id));
                }
            }
        }
    }
    r
}

fn successors(callees: &Vec<BindingId>, nodes: &Vec<BindingId>) -> (r: Vec<usize>)
    requires
        ascending(nodes@),
        forall|e: int| 0 <= e < callees@.len() ==> nodes@.contains(#[trigger] callees@[e]),
    ensures
        forall|k: int| 0 <= k < r@.len() ==> (#[trigger] r@[k]) < nodes@.len(),
        forall|j: usize|
            j < nodes@.len() ==> (#[trigger] r@.contains(j) <==> callees@.contains(
                nodes@[j as int],
            )),
{
    let mut r: Vec<usize> = Vec::new();
    let mut e: usize = 0;
    while e < callees.len()
        invariant
            ascending(nodes@),
            forall|x: int| 0 <= x < callees@.len() ==> nodes@.contains(#[trigger] callees@[x]),
            e <= callees@.len(),
            r@.len() == e,
            forall|k: int|
                0 <= k < e ==> (#[trigger] r@[k]) < nodes@.len() && nodes@[r@[k] as int]
                    == callees@[k],
        decreases callees@.len() - e,
    {
        assert(nodes@.contains(callees@[e as int]));
        match position(nodes, callees[e]) {
            Some(i) => {
                r.push(i);
            },
            None => {
                assert(false);
            },
        }
        e += 1;
    }
    proof {
        assert forall|j: usize| j < nodes@.len() implies (#[trigger] r@.contains(j)
            <==> callees@.contains(nodes@[j as int])) by {
            if r@.contains(j) {
                let k = choose|k: int| 0 <= k < r@.len() && r@[k] == j;
                assert(callees@[k] == nodes@[j as int]);
            }
            if callees@.contains(nodes@[j as int]) {
                let k = choose|k: int| 0 <= k < callees@.len() && callees@[k] == nodes@[j as int];
                lemma_position_unique(nodes@, r@[k] as int, j as int);
                assert(r@[k] == j);
            }
        }
    }
    r
}

fn number_graph(rows: &CallGraph, nodes: &Vec<BindingId>, Ghost(calls_of): Ghost<Calls>) -> (r: Vec<
    Vec<usize>,
>)
    requires
        rows_show(rows.rows@, calls_of),
        ascending(nodes@),
        forall|id: BindingId| #[trigger] known(calls_of, id) <==> nodes@.contains(id),
    ensures
        numbered(calls_of, nodes@, graph(r@)),
{
    let mut r: Vec<Vec<usize>> = Vec::new();
    let n: usize = nodes.len();
    let mut i: usize = 0;
    while i < n
        invariant
            rows_show(rows.rows@, calls_of),
            ascending(nodes@),
            forall|id: BindingId| #[trigger] known(calls_of, id) <==> nodes@.contains(id),
            n == nodes@.len(),
            i <= n,
            r@.len() == i,
            forall|a: int, k: int|
                0 <= a < i && 0 <= k < r@[a]@.len() ==> (#[trigger] r@[a]@[k]) < n,
            forall|a: int, j: usize|
                0 <= a < i && j < n ==> (#[trigger] r@[a]@.contains(j) <==> calls(
                    calls_of,
                    nodes@[a],
                    nodes@[j as int],
                )),
        decreases n - i,
    {
        let id = nodes[i];
        let next = match rows.row(id) {
            Some(k) => {
                proof {
                    assert forall|e: int| 0 <= e < rows.rows@[k as int].callees@.len() implies nodes@.contains(
                        #[trigger] rows.rows@[k as int].callees@[e],
                    ) by {
                        let b = rows.rows@[k as int].callees@[e];
                        assert(rows.rows@[k as int].callees@.to_set().contains(b));
                        assert(calls(calls_of, id, b));
                        assert(known(calls_of, b));
                    }
                }
                let next = successors(&rows.rows[k].callees, nodes);
                proof {
                    assert forall|j: usize| j < n implies (#[trigger] next@.contains(j) <==> calls(
                        calls_of,
                        id,
                        nodes@[j as int],
                    )) by {
                        let b = nodes@[j as int];
                        assert(rows.rows@[k as int].callees@.to_set().contains(b)
                            <==> rows.rows@[k as int].callees@.contains(b));
                    }
                }
                next
            },
            None => {
                let next: Vec<usize> = Vec::new();
                assert(!calls_of.contains_key(id));
                next
            },
        };
        r.push(next);
        i += 1;
    }
    proof {
        let adj = graph(r@);
        assert forall|a: int, k: int| 0 <= a < adj.len() && 0 <= k < adj[a].len() implies (
        #[trigger] adj[a][k]) < adj.len() by {
            assert(adj[a][k] == r@[a]@[k]);
        }
        assert forall|a: int| 0 <= a < adj.len() implies (#[trigger] adj[a]).len() <= usize::MAX by {
            assert(r@[a].len() == adj[a].len());
        }
        assert forall|x: usize, y: usize| x < nodes@.len() && y < nodes@.len() implies (
        #[trigger] edge(adj, x, y) <==> calls(calls_of, nodes@[x as int], nodes@[y as int])) by {
            assert(adj[x as int] == r@[x as int]@);
            assert(r@[x as int]@.contains(y) <==> calls(
                calls_of,
                nodes@[x as int],
                nodes@[y as int],
            ));
        }
    }
    r
}

fn has_edge(adj: &Vec<Vec<usize>>, a: usize, b: usize) -> (r: bool)
    requires
        a < adj@.len(),
    ensures
        r == edge(graph(adj@), a, b),
{
    assert(graph(adj@)[a as int] == adj@[a as int]@);
    let mut k: usize = 0;
    while k < adj[a].len()
        invariant
            a < adj@.len(),
            k <= adj@[a as int]@.len(),
            forall|j: int| 0 <= j < k ==> adj@[a as int]@[j] != b,
        decreases adj@[a as int]@.len() - k,
    {
        if adj[a][k] == b {
            assert(adj@[a as int]@[k as int] == b);
            return true;
        }
        k += 1;
    }
    false
}

fn component_self_edge(adj: &Vec<Vec<usize>>, members: &Vec<usize>) -> (r: bool)
    requires
        forall|e: int| 0 <= e < members@.len() ==> (#[trigger] members@[e]) < adj@.len(),
    ensures
        r <==> exists|m: usize| members@.contains(m) && #[trigger] edge(graph(adj@), m, m),
{
    let mut i: usize = 0;
    while i < members.len()
        invariant
            forall|e: int| 0 <= e < members@.len() ==> (#[trigger] members@[e]) < adj@.len(),
            i <= members@.len(),
            forall|e: int|
                0 <= e < i ==> !edge(graph(adj@), #[trigger] members@[e], members@[e]),
        decreases members@.len() - i,
    {
        let m: usize = members[i];
        if has_edge(adj, m, m) {
            assert(members@.contains(m));
            return true;
        }
        i += 1;
    }
    false
}

fn component_has_decreases(
    package: &ResolvedPackage,
    nodes: &Vec<BindingId>,
    members: &Vec<usize>,
) -> (r: bool)
    requires
        forall|e: int| 0 <= e < members@.len() ==> (#[trigger] members@[e]) < nodes@.len(),
    ensures
        r <==> exists|m: usize|
            #[trigger] members@.contains(m) && has_measure(*package, nodes@[m as int]),
{
    let mut i: usize = 0;
    while i < members.len()
        invariant
            forall|e: int| 0 <= e < members@.len() ==> (#[trigger] members@[e]) < nodes@.len(),
            i <= members@.len(),
            forall|e: int|
                0 <= e < i ==> !has_measure(*package, nodes@[#[trigger] members@[e] as int]),
        decreases members@.len() - i,
    {
        let m: usize = members[i];
        if function_has_decreases(nodes[m], package) {
            assert(members@.contains(m));
            return true;
        }
        i += 1;
    }
    false
}

/// For each function of a package, whether it is recursive and whether it may
/// diverge.
pub struct SccMap {
    nodes: Vec<BindingId>,
    partition: SccPartition,
    cycles: Vec<bool>,
    divergent: Vec<bool>,
}

impl SccMap {
    /// Every function has a component, and every component its flags.
    #[verifier::type_invariant]
    closed spec fn fits(self) -> bool {
        &&& ascending(self.nodes@)
        &&& self.partition.scc_index@.len() == self.nodes@.len()
        &&& self.cycles@.len() == self.partition.sccs@.len()
        &&& self.divergent@.len() == self.partition.sccs@.len()
        &&& forall|i: int|
            0 <= i < self.partition.scc_index@.len() ==> (#[trigger] self.partition.scc_index@[i])
                < self.partition.sccs@.len()
    }

    /// Whether a function is in a component that may diverge.
    pub closed spec fn may_diverge(self, id: BindingId) -> bool {
        exists|i: int|
            0 <= i < self.nodes@.len() && #[trigger] self.nodes@[i] == id
                && self.divergent@[self.partition.scc_index@[i] as int]
    }

    /// Whether a function is in a cyclic component.
    pub closed spec fn cycles_back(self, id: BindingId) -> bool {
        exists|i: int|
            0 <= i < self.nodes@.len() && #[trigger] self.nodes@[i] == id
                && self.cycles@[self.partition.scc_index@[i] as int]
    }

    /// Whether two functions are in one component.
    pub closed spec fn together(self, a: BindingId, b: BindingId) -> bool {
        exists|i: int, j: int|
            0 <= i < self.nodes@.len() && 0 <= j < self.nodes@.len() && #[trigger] self.nodes@[i]
                == a && #[trigger] self.nodes@[j] == b && self.partition.scc_index@[i]
                == self.partition.scc_index@[j]
    }

    /// The map of no functions.
    pub fn empty() -> (r: SccMap)
        ensures
            forall|id: BindingId| !(#[trigger] r.may_diverge(id)),
            forall|id: BindingId| !(#[trigger] r.cycles_back(id)),
            forall|a: BindingId, b: BindingId| !(#[trigger] r.together(a, b)),
    {
        SccMap {
            nodes: Vec::new(),
            partition: SccPartition { sccs: Vec::new(), scc_index: Vec::new() },
            cycles: Vec::new(),
            divergent: Vec::new(),
        }
    }

    /// Whether a function may diverge.
    pub fn is_divergent(&self, id: BindingId) -> (r: bool)
        ensures
            r == self.may_diverge(id),
    {
        proof {
            use_type_invariant(self);
        }
        match position(&self.nodes, id) {
            Some(i) => {
                let k: usize = self.partition.scc_index[i];
                let r = self.divergent[k];
                proof {
                    assert(self.nodes@[i as int] == id);
                    if self.may_diverge(id) {
                        let j = choose|j: int|
                            0 <= j < self.nodes@.len() && #[trigger] self.nodes@[j] == id
                                && self.divergent@[self.partition.scc_index@[j] as int];
                        lemma_position_unique(self.nodes@, i as int, j);
                    }
                }
                r
            },
            None => false,
        }
    }

    /// Whether a function is recursive.
    pub fn is_recursive(&self, id: BindingId) -> (r: bool)
        ensures
            r == self.cycles_back(id),
    {
        proof {
            use_type_invariant(self);
        }
        match position(&self.nodes, id) {
            Some(i) => {
                let k: usize = self.partition.scc_index[i];
                let r = self.cycles[k];
                proof {
                    assert(self.nodes@[i as int] == id);
                    if self.cycles_back(id) {
                        let j = choose|j: int|
                            0 <= j < self.nodes@.len() && #[trigger] self.nodes@[j] == id
                                && self.cycles@[self.partition.scc_index@[j] as int];
                        lemma_position_unique(self.nodes@, i as int, j);
                    }
                }
                r
            },
            None => false,
        }
    }

    /// Whether two functions are recursive with each other.
    pub fn same_scc(&self, a: BindingId, b: BindingId) -> (r: bool)
        ensures
            r == self.together(a, b),
    {
        proof {
            use_type_invariant(self);
        }
        match (position(&self.nodes, a), position(&self.nodes, b)) {
            (Some(i), Some(j)) => {
                let r = self.partition.scc_index[i] == self.partition.scc_index[j];
                proof {
                    assert(self.nodes@[i as int] == a && self.nodes@[j as int] == b);
                    if self.together(a, b) {
                        let (x, y) = choose|x: int, y: int|
                            0 <= x < self.nodes@.len() && 0 <= y < self.nodes@.len()
                                && #[trigger] self.nodes@[x] == a && #[trigger] self.nodes@[y] == b
                                && self.partition.scc_index@[x] == self.partition.scc_index@[y];
                        lemma_position_unique(self.nodes@, i as int, x);
                        lemma_position_unique(self.nodes@, j as int, y);
                    }
                }
                r
            },
            _ => false,
        }
    }
}

/// Which functions of a package are recursive, and which may diverge.
pub fn build_scc_map(package: &ResolvedPackage) -> (r: SccMap)
    ensures
        forall|id: BindingId| #[trigger]
            r.cycles_back(id) <==> recursive(call_graph(*package), id),
        forall|id: BindingId| #[trigger] r.may_diverge(id) <==> diverges(*package, id),
        forall|a: BindingId, b: BindingId| #[trigger]
            r.together(a, b) <==> known(call_graph(*package), a) && known(call_graph(*package), b)
                && entangled(call_graph(*package), a, b),
{
    let ghost calls_of = call_graph(*package);
    let rows = build_call_graph(package);
    let nodes = graph_nodes(&rows, Ghost(calls_of));
    let adj = number_graph(&rows, &nodes, Ghost(calls_of));
    let ghost g = graph(adj@);
    let partition = scc_partition(&adj);
    let mut cycles: Vec<bool> = Vec::new();
    let mut divergent: Vec<bool> = Vec::new();
    let mut k: usize = 0;
    while k < partition.sccs.len()
        invariant
            g == graph(adj@),
            numbered(calls_of, nodes@, g),
            partition.partitions(g),
            k <= partition.sccs@.len(),
            cycles@.len() == k,
            divergent@.len() == k,
            forall|e: int|
                0 <= e < k ==> #[trigger] cycles@[e] == cyclic(g, partition.sccs@[e]@),
            forall|e: int|
                0 <= e < k ==> #[trigger] divergent@[e] == (cyclic(g, partition.sccs@[e]@)
                    && !exists|m: usize|
                    #[trigger] partition.sccs@[e]@.contains(m) && has_measure(
                        *package,
                        nodes@[m as int],
                    )),
        decreases partition.sccs@.len() - k,
    {
        let members = &partition.sccs[k];
        proof {
            assert forall|e: int| 0 <= e < members@.len() implies (#[trigger] members@[e])
                < adj@.len() by {
                assert(partition.sccs@[k as int]@.contains(members@[e]));
            }
        }
        let cycle = members.len() >= 2 || component_self_edge(&adj, members);
        let measure = component_has_decreases(package, &nodes, members);
        cycles.push(cycle);
        divergent.push(cycle && !measure);
        k += 1;
    }
    let r = SccMap { nodes, partition, cycles, divergent };
    proof {
        let p = r.partition;
        assert forall|id: BindingId| #[trigger] r.cycles_back(id) <==> recursive(calls_of, id) by {
            if r.cycles_back(id) {
                let i = choose|i: int|
                    0 <= i < r.nodes@.len() && #[trigger] r.nodes@[i] == id
                        && r.cycles@[p.scc_index@[i] as int];
                lemma_recursive(calls_of, r.nodes@, g, p, i as usize);
                assert(p.scc_index@[i as usize as int] < p.sccs@.len());
            }
            if recursive(calls_of, id) {
                assert(known(calls_of, id));
                let i = lemma_position(r.nodes@, id);
                lemma_recursive(calls_of, r.nodes@, g, p, i);
                assert(p.scc_index@[i as int] < p.sccs@.len());
                assert(r.nodes@[i as int] == id);
            }
        }
        assert forall|id: BindingId| #[trigger] r.may_diverge(id) <==> diverges(*package, id) by {
            if known(calls_of, id) {
                let i = lemma_position(r.nodes@, id);
                let e = p.scc_index@[i as int] as int;
                let members = p.sccs@[e]@;
                lemma_recursive(calls_of, r.nodes@, g, p, i);
                assert(e < p.sccs@.len());
                lemma_measures(*package, calls_of, r.nodes@, g, p, i);
                assert(r.divergent@[e] == diverges(*package, id));
                if r.may_diverge(id) {
                    let j = choose|j: int|
                        0 <= j < r.nodes@.len() && #[trigger] r.nodes@[j] == id
                            && r.divergent@[p.scc_index@[j] as int];
                    lemma_position_unique(r.nodes@, i as int, j);
                }
            } else {
                assert(!recursive(calls_of, id));
                if r.may_diverge(id) {
                    assert(r.nodes@.contains(id));
                }
            }
        }
        assert forall|a: BindingId, b: BindingId| #[trigger] r.together(a, b) <==> known(
            calls_of,
            a,
        ) && known(calls_of, b) && entangled(calls_of, a, b) by {
            if r.together(a, b) {
                let (x, y) = choose|x: int, y: int|
                    0 <= x < r.nodes@.len() && 0 <= y < r.nodes@.len() && #[trigger] r.nodes@[x]
                        == a && #[trigger] r.nodes@[y] == b && p.scc_index@[x] == p.scc_index@[y];
                lemma_reach_leads(calls_of, r.nodes@, g, x as usize, y as usize);
                lemma_reach_leads(calls_of, r.nodes@, g, y as usize, x as usize);
                assert(mutual(g, x as usize, y as usize));
                assert(r.nodes@.contains(a) && r.nodes@.contains(b));
            }
            if known(calls_of, a) && known(calls_of, b) && entangled(calls_of, a, b) {
                let x = lemma_position(r.nodes@, a);
                let y = lemma_position(r.nodes@, b);
                lemma_reach_leads(calls_of, r.nodes@, g, x, y);
                lemma_reach_leads(calls_of, r.nodes@, g, y, x);
                assert(mutual(g, x, y));
                assert(r.nodes@[x as int] == a && r.nodes@[y as int] == b);
            }
        }
    }
    r
}

proof fn lemma_measures(
    package: ResolvedPackage,
    calls_of: Calls,
    nodes: Seq<BindingId>,
    adj: Adjacency,
    p: SccPartition,
    i: usize,
)
    requires
        numbered(calls_of, nodes, adj),
        p.partitions(adj),
        i < nodes.len(),
    ensures
        (exists|m: usize|
            #[trigger] p.sccs@[p.scc_index@[i as int] as int]@.contains(m) && has_measure(
                package,
                nodes[m as int],
            )) <==> (exists|b: BindingId| #[trigger]
            entangled(calls_of, nodes[i as int], b) && has_measure(package, b)),
{
    let id = nodes[i as int];
    let members = p.sccs@[p.scc_index@[i as int] as int]@;
    assert(members.contains(i));
    if exists|m: usize| #[trigger] members.contains(m) && has_measure(package, nodes[m as int]) {
        let m = choose|m: usize| #[trigger]
            members.contains(m) && has_measure(package, nodes[m as int]);
        assert(mutual(adj, i, m));
        lemma_reach_leads(calls_of, nodes, adj, i, m);
        lemma_reach_leads(calls_of, nodes, adj, m, i);
        assert(entangled(calls_of, id, nodes[m as int]));
    }
    if exists|b: BindingId| #[trigger] entangled(calls_of, id, b) && has_measure(package, b) {
        let b = choose|b: BindingId| #[trigger]
            entangled(calls_of, id, b) && has_measure(package, b);
        lemma_leads_known(calls_of, nodes, adj, i, b);
        let m = lemma_position(nodes, b);
        lemma_reach_leads(calls_of, nodes, adj, i, m);
        lemma_reach_leads(calls_of, nodes, adj, m, i);
        assert(mutual(adj, i, m));
        assert(members.contains(m));
    }
}

} // verus!
