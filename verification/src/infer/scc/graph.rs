//! The call graph of a package.

use vstd::prelude::*;

use super::callees::{block_callees, collect_block};
use crate::list::List;
use crate::package::{item_index, FnDecl, ItemEntry, Module, ResolvedPackage};
use crate::ty::{BindingId, ModuleId};

verus! {

/// For each function, the functions that it calls.
pub type Calls = Map<BindingId, Set<BindingId>>;

/// Whether `a` calls `b`.
pub open spec fn calls(graph: Calls, a: BindingId, b: BindingId) -> bool {
    graph.contains_key(a) && graph[a].contains(b)
}

/// With the calls of one function: a function without a body calls nothing.
pub open spec fn with_function(
    package: ResolvedPackage,
    id: BindingId,
    function: FnDecl,
    graph: Calls,
) -> Calls {
    match function.body {
        Some(body) => graph.insert(id, block_callees(package, body).to_set()),
        None => if graph.contains_key(id) {
            graph
        } else {
            graph.insert(id, Set::empty())
        },
    }
}

/// With the calls of the functions of a module.
pub open spec fn with_functions(
    package: ResolvedPackage,
    at: usize,
    items: List<ItemEntry>,
    functions: List<FnDecl>,
    graph: Calls,
) -> Calls
    decreases functions,
{
    match functions {
        List::Nil => graph,
        List::Cons(f, rest) => {
            let after = match item_index(items, f.name) {
                Some(index) => with_function(
                    package,
                    BindingId { module: ModuleId(at), index },
                    *f,
                    graph,
                ),
                None => graph,
            };
            with_functions(package, at, items, *rest, after)
        },
    }
}

/// With the calls of the functions of modules.
pub open spec fn with_modules(
    package: ResolvedPackage,
    at: usize,
    modules: List<Module>,
    graph: Calls,
) -> Calls
    decreases modules,
{
    match modules {
        List::Nil => graph,
        List::Cons(m, rest) => {
            let after = with_functions(package, at, m.items, m.functions, graph);
            if at == usize::MAX {
                after
            } else {
                with_modules(package, (at + 1) as usize, *rest, after)
            }
        },
    }
}

/// The call graph of a package.
pub open spec fn call_graph(package: ResolvedPackage) -> Calls {
    with_modules(package, 0, package.modules, Map::empty())
}

/// Whether one handle comes before another.
pub open spec fn id_less(a: BindingId, b: BindingId) -> bool {
    a.module.0 < b.module.0 || (a.module.0 == b.module.0 && a.index < b.index)
}

/// Whether handles are in ascending order, each once.
pub open spec fn ascending(ids: Seq<BindingId>) -> bool {
    forall|i: int, j: int| 0 <= i < j < ids.len() ==> id_less(#[trigger] ids[i], #[trigger] ids[j])
}

fn less(a: BindingId, b: BindingId) -> (r: bool)
    ensures
        r == id_less(a, b),
{
    a.module.0 < b.module.0 || (a.module.0 == b.module.0 && a.index < b.index)
}

/// Put a handle into its place.
pub fn insert_id(ids: &mut Vec<BindingId>, id: BindingId)
    requires
        ascending(old(ids)@),
    ensures
        ascending(final(ids)@),
        final(ids)@.to_set() == old(ids)@.to_set().insert(id),
{
    let mut i: usize = 0;
    while i < ids.len() && less(ids[i], id)
        invariant
            ids@ == old(ids)@,
            i <= ids@.len(),
            forall|j: int| 0 <= j < i ==> id_less(#[trigger] ids@[j], id),
        decreases ids@.len() - i,
    {
        i += 1;
    }
    if i < ids.len() && ids[i] == id {
        assert(ids@.to_set() =~= ids@.to_set().insert(id)) by {
            assert(ids@.contains(ids@[i as int]));
        }
        return;
    }
    ids.insert(i, id);
    proof {
        let before = old(ids)@;
        let after = ids@;
        assert(after == before.insert(i as int, id));
        assert forall|a: int, b: int| 0 <= a < b < after.len() implies id_less(
            #[trigger] after[a],
            #[trigger] after[b],
        ) by {
            let x = if a < i {
                a
            } else {
                a - 1
            };
            let y = if b < i {
                b
            } else {
                b - 1
            };
            if a == i {
                assert(id_less(id, before[i as int]));
                if y > i {
                    assert(id_less(before[i as int], before[y]));
                }
            } else if b == i {
                assert(id_less(before[a], id));
            } else {
                assert(id_less(before[x], before[y]));
            }
        }
        assert forall|v: BindingId| after.to_set().contains(v) <==> before.to_set().insert(
            id,
        ).contains(v) by {
            if after.contains(v) {
                let k = choose|k: int| 0 <= k < after.len() && after[k] == v;
                if k < i {
                    assert(before[k] == v);
                } else if k > i {
                    assert(before[k - 1] == v);
                }
            }
            if before.contains(v) {
                let k = choose|k: int| 0 <= k < before.len() && before[k] == v;
                if k < i {
                    assert(after[k] == v);
                } else {
                    assert(after[k + 1] == v);
                }
            }
            assert(after[i as int] == id);
        }
        assert(after.to_set() =~= before.to_set().insert(id));
    }
}

/// The handles of a list in ascending order, each once.
pub fn sorted_ids(ids: &Vec<BindingId>) -> (r: Vec<BindingId>)
    ensures
        ascending(r@),
        r@.to_set() == ids@.to_set(),
{
    let mut r: Vec<BindingId> = Vec::new();
    let mut i: usize = 0;
    assert(r@.to_set() =~= ids@.take(0).to_set());
    while i < ids.len()
        invariant
            i <= ids@.len(),
            ascending(r@),
            r@.to_set() == ids@.take(i as int).to_set(),
        decreases ids@.len() - i,
    {
        insert_id(&mut r, ids[i]);
        proof {
            let less = ids@.take(i as int);
            let more = ids@.take(i + 1);
            assert(more == less.push(ids@[i as int]));
            assert forall|v: BindingId| more.to_set().contains(v) <==> less.to_set().insert(
                ids@[i as int],
            ).contains(v) by {
                if less.contains(v) {
                    let k = choose|k: int| 0 <= k < less.len() && less[k] == v;
                    assert(more[k] == v);
                }
                assert(more[i as int] == ids@[i as int]);
            }
            assert(more.to_set() =~= less.to_set().insert(ids@[i as int]));
        }
        i += 1;
    }
    assert(ids@.take(i as int) == ids@);
    r
}

/// A function and the functions that it calls.
pub struct CallRow {
    /// The function.
    pub caller: BindingId,
    /// The functions that it calls, in ascending order.
    pub callees: Vec<BindingId>,
}

/// The call graph of a package.
pub struct CallGraph {
    /// A row for each function.
    pub rows: Vec<CallRow>,
}

/// Whether every function has one row, with its callees in ascending order.
pub open spec fn rows_fit(rows: Seq<CallRow>) -> bool {
    &&& forall|i: int| 0 <= i < rows.len() ==> ascending((#[trigger] rows[i]).callees@)
    &&& forall|i: int, j: int|
        0 <= i < j < rows.len() ==> (#[trigger] rows[i]).caller != (#[trigger] rows[j]).caller
}

/// Whether the rows are those of `graph`.
pub open spec fn rows_show(rows: Seq<CallRow>, graph: Calls) -> bool {
    &&& rows_fit(rows)
    &&& forall|i: int|
        0 <= i < rows.len() ==> graph.contains_key((#[trigger] rows[i]).caller)
            && graph[rows[i].caller] == rows[i].callees@.to_set()
    &&& forall|id: BindingId| #[trigger]
        graph.contains_key(id) ==> exists|i: int|
            0 <= i < rows.len() && (#[trigger] rows[i]).caller == id
}

impl CallGraph {
    /// The position of the row of a function.
    pub fn row(&self, id: BindingId) -> (r: Option<usize>)
        ensures
            match r {
                Some(i) => i < self.rows@.len() && self.rows@[i as int].caller == id,
                None => forall|i: int|
                    0 <= i < self.rows@.len() ==> (#[trigger] self.rows@[i]).caller != id,
            },
    {
        let mut i: usize = 0;
        while i < self.rows.len()
            invariant
                i <= self.rows@.len(),
                forall|j: int| 0 <= j < i ==> (#[trigger] self.rows@[j]).caller != id,
            decreases self.rows@.len() - i,
        {
            if self.rows[i].caller == id {
                return Some(i);
            }
            i += 1;
        }
        None
    }

    fn insert(&mut self, id: BindingId, callees: Vec<BindingId>, Ghost(graph): Ghost<Calls>)
        requires
            rows_show(old(self).rows@, graph),
            ascending(callees@),
        ensures
            rows_show(final(self).rows@, graph.insert(id, callees@.to_set())),
    {
        let ghost after = graph.insert(id, callees@.to_set());
        match self.row(id) {
            Some(i) => {
                self.rows.set(i, CallRow { caller: id, callees });
                proof {
                    let rows = self.rows@;
                    assert forall|k: BindingId| #[trigger] after.contains_key(k) implies exists|j: int|
                        0 <= j < rows.len() && (#[trigger] rows[j]).caller == k by {
                        if k == id {
                            assert(rows[i as int].caller == k);
                        } else {
                            assert(graph.contains_key(k));
                            let j = choose|j: int|
                                0 <= j < old(self).rows@.len() && (#[trigger] old(self).rows@[j]).caller
                                    == k;
                            assert(rows[j].caller == k);
                        }
                    }
                    assert forall|j: int| 0 <= j < rows.len() implies after.contains_key(
                        (#[trigger] rows[j]).caller,
                    ) && after[rows[j].caller] == rows[j].callees@.to_set() by {
                        if j != i {
                            assert(rows[j] == old(self).rows@[j]);
                            if j < i {
                                assert(old(self).rows@[j].caller != old(self).rows@[i as int].caller);
                            } else {
                                assert(old(self).rows@[i as int].caller != old(self).rows@[j].caller);
                            }
                        }
                    }
                }
            },
            None => {
                self.rows.push(CallRow { caller: id, callees });
                proof {
                    let rows = self.rows@;
                    let n = old(self).rows@.len() as int;
                    assert(rows[n].caller == id);
                    assert forall|k: BindingId| #[trigger] after.contains_key(k) implies exists|j: int|
                        0 <= j < rows.len() && (#[trigger] rows[j]).caller == k by {
                        if k != id {
                            assert(graph.contains_key(k));
                            let j = choose|j: int|
                                0 <= j < old(self).rows@.len() && (#[trigger] old(self).rows@[j]).caller
                                    == k;
                            assert(rows[j].caller == k);
                        }
                    }
                    assert forall|j: int| 0 <= j < rows.len() implies after.contains_key(
                        (#[trigger] rows[j]).caller,
                    ) && after[rows[j].caller] == rows[j].callees@.to_set() by {
                        if j < n {
                            assert(rows[j] == old(self).rows@[j]);
                        }
                    }
                }
            },
        }
    }

    fn add_function(
        &mut self,
        package: &ResolvedPackage,
        id: BindingId,
        function: &FnDecl,
        Ghost(graph): Ghost<Calls>,
    )
        requires
            rows_show(old(self).rows@, graph),
        ensures
            rows_show(final(self).rows@, with_function(*package, id, *function, graph)),
    {
        match &function.body {
            Some(body) => {
                let mut found: Vec<BindingId> = Vec::new();
                collect_block(package, body, &mut found);
                assert(found@ == block_callees(*package, *body));
                let callees = sorted_ids(&found);
                self.insert(id, callees, Ghost(graph));
            },
            None => match self.row(id) {
                Some(i) => {
                    assert(graph.contains_key(self.rows@[i as int].caller));
                },
                None => {
                    let none: Vec<BindingId> = Vec::new();
                    assert(none@.to_set() =~= Set::empty());
                    self.insert(id, none, Ghost(graph));
                },
            },
        }
    }

    fn add_functions(
        &mut self,
        package: &ResolvedPackage,
        at: usize,
        module: &Module,
        functions: &List<FnDecl>,
        Ghost(graph): Ghost<Calls>,
    )
        requires
            rows_show(old(self).rows@, graph),
        ensures
            rows_show(
                final(self).rows@,
                with_functions(*package, at, module.items, *functions, graph),
            ),
        decreases functions,
    {
        match functions {
            List::Nil => {},
            List::Cons(f, rest) => match module.lookup(f.name) {
                Some(index) => {
                    let id = BindingId { module: ModuleId(at), index };
                    self.add_function(package, id, f, Ghost(graph));
                    self.add_functions(
                        package,
                        at,
                        module,
                        rest,
                        Ghost(with_function(*package, id, **f, graph)),
                    );
                },
                None => self.add_functions(package, at, module, rest, Ghost(graph)),
            },
        }
    }

    fn add_modules(
        &mut self,
        package: &ResolvedPackage,
        at: usize,
        modules: &List<Module>,
        Ghost(graph): Ghost<Calls>,
    )
        requires
            rows_show(old(self).rows@, graph),
        ensures
            rows_show(final(self).rows@, with_modules(*package, at, *modules, graph)),
        decreases modules,
    {
        match modules {
            List::Nil => {},
            List::Cons(m, rest) => {
                self.add_functions(package, at, m, &m.functions, Ghost(graph));
                if at < usize::MAX {
                    self.add_modules(
                        package,
                        at + 1,
                        rest,
                        Ghost(with_functions(*package, at, m.items, m.functions, graph)),
                    );
                }
            },
        }
    }
}

/// The call graph of a package.
pub fn build_call_graph(package: &ResolvedPackage) -> (r: CallGraph)
    ensures
        rows_show(r.rows@, call_graph(*package)),
{
    let mut r = CallGraph { rows: Vec::new() };
    r.add_modules(package, 0, &package.modules, Ghost(Map::empty()));
    r
}

} // verus!
