//! Laws of recursion and of termination measures.

use vstd::prelude::*;

use super::graph::{call_graph, calls, Calls};
use super::map::{call_walk, diverges, entangled, has_measure, leads_to, measured, recursive};
use super::occurs::{declares, law_call_graph, names_function, occurs_in, Node};
use crate::hir::{HirBlock, HirCall};
use crate::intern::Symbol;
use crate::list::List;
use crate::package::{FnDecl, Module, ResolvedPackage};
use crate::ty::BindingId;

verus! {

/// A function is recursive exactly where some number of calls, at least one,
/// leads from it back to it.
pub proof fn law_recursive(calls_of: Calls, a: BindingId)
    ensures
        recursive(calls_of, a) <==> exists|n: nat| n > 0 && call_walk(calls_of, a, a, n),
{
    reveal(leads_to);
    if recursive(calls_of, a) {
        let b = choose|b: BindingId| #[trigger] calls(calls_of, a, b) && leads_to(calls_of, b, a);
        let n = choose|n: nat| call_walk(calls_of, b, a, n);
        assert((n + 1 - 1) as nat == n);
        assert(call_walk(calls_of, a, a, n + 1));
    }
    if exists|n: nat| n > 0 && call_walk(calls_of, a, a, n) {
        let n = choose|n: nat| n > 0 && call_walk(calls_of, a, a, n);
        let b = choose|b: BindingId| #[trigger]
            calls(calls_of, a, b) && call_walk(calls_of, b, a, (n - 1) as nat);
        assert(leads_to(calls_of, b, a));
    }
}

/// A function whose body has a call of itself, anywhere, is recursive; without
/// a measure in its group it may diverge.
pub proof fn law_self_call(
    package: ResolvedPackage,
    a: BindingId,
    body: HirBlock,
    call: HirCall,
    depth: nat,
)
    requires
        forall|other: HirBlock| #[trigger] declares(package, a, other) <==> other == body,
        occurs_in(call, Node::Block(body), depth),
        names_function(package, call, a),
    ensures
        recursive(call_graph(package), a),
        (forall|b: BindingId| #[trigger]
            entangled(call_graph(package), a, b) ==> !has_measure(package, b)) ==> diverges(
            package,
            a,
        ),
        has_measure(package, a) ==> !diverges(package, a),
{
    let calls_of = call_graph(package);
    law_call_graph(package, a, a, body);
    assert(calls(calls_of, a, a));
    assert(leads_to(calls_of, a, a)) by {
        reveal(leads_to);
        assert(call_walk(calls_of, a, a, 0));
    }
    assert(entangled(calls_of, a, a));
}

/// Two functions whose bodies call each other are recursive and share their
/// termination obligation.
pub proof fn law_mutual_calls(
    package: ResolvedPackage,
    a: BindingId,
    b: BindingId,
    body_a: HirBlock,
    body_b: HirBlock,
    to_b: HirCall,
    to_a: HirCall,
    depth_a: nat,
    depth_b: nat,
)
    requires
        forall|other: HirBlock| #[trigger] declares(package, a, other) <==> other == body_a,
        forall|other: HirBlock| #[trigger] declares(package, b, other) <==> other == body_b,
        occurs_in(to_b, Node::Block(body_a), depth_a),
        names_function(package, to_b, b),
        occurs_in(to_a, Node::Block(body_b), depth_b),
        names_function(package, to_a, a),
    ensures
        recursive(call_graph(package), a),
        recursive(call_graph(package), b),
        entangled(call_graph(package), a, b),
        has_measure(package, a) || has_measure(package, b) ==> !diverges(package, a) && !diverges(
            package,
            b,
        ),
{
    let calls_of = call_graph(package);
    law_call_graph(package, a, b, body_a);
    law_call_graph(package, b, a, body_b);
    assert(calls(calls_of, a, b) && calls(calls_of, b, a));
    reveal(leads_to);
    assert(call_walk(calls_of, a, a, 0) && call_walk(calls_of, b, b, 0));
    assert(call_walk(calls_of, a, b, 1)) by {
        assert((1 - 1) as nat == 0);
        assert(calls(calls_of, a, b) && call_walk(calls_of, b, b, 0));
    }
    assert(call_walk(calls_of, b, a, 1)) by {
        assert((1 - 1) as nat == 0);
        assert(calls(calls_of, b, a) && call_walk(calls_of, a, a, 0));
    }
    assert(leads_to(calls_of, a, b) && leads_to(calls_of, b, a));
    assert(leads_to(calls_of, a, a) && leads_to(calls_of, b, b));
    assert(entangled(calls_of, a, b) && entangled(calls_of, b, a));
    assert(entangled(calls_of, a, a) && entangled(calls_of, b, b));
}

/// Whether all functions of that name have a measure, or all have none, as
/// `with` says.
pub open spec fn all_measured(functions: List<FnDecl>, name: Symbol, with: bool) -> bool
    decreases functions,
{
    match functions {
        List::Nil => true,
        List::Cons(f, rest) => (f.name == name ==> f.has_decreases == with) && all_measured(
            *rest,
            name,
            with,
        ),
    }
}

/// Whether a function of that name is declared.
pub open spec fn declared(functions: List<FnDecl>, name: Symbol) -> bool
    decreases functions,
{
    match functions {
        List::Nil => false,
        List::Cons(f, rest) => f.name == name || declared(*rest, name),
    }
}

proof fn lemma_measured(functions: List<FnDecl>, name: Symbol, with: bool)
    requires
        all_measured(functions, name, with),
        declared(functions, name),
    ensures
        measured(functions, name) == with,
    decreases functions,
{
    match functions {
        List::Nil => {},
        List::Cons(f, rest) => {
            if f.name != name {
                lemma_measured(*rest, name, with);
            }
        },
    }
}

/// A function has a termination measure exactly where it is declared with one.
pub proof fn law_measure(package: ResolvedPackage, id: BindingId, m: Module, with: bool)
    requires
        package.modules.nth(id.module.0 as nat) == Some(m),
        package.entry(id) is Some,
        declared(m.functions, package.entry(id)->0.name),
        all_measured(m.functions, package.entry(id)->0.name, with),
    ensures
        has_measure(package, id) == with,
{
    lemma_measured(m.functions, package.entry(id)->0.name, with);
}

} // verus!
