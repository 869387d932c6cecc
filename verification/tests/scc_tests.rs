//! Recursion over the call graph.

use edda_types::hir::{
    HirBlock, HirCall, HirCallArg, HirExpr, HirExprKind, HirIndex, HirPath, HirSpawn, HirSpawnArg,
    HirStmt, HirStmtKind,
};
use edda_types::infer::scc::callees::collect_block;
use edda_types::infer::scc::graph::{build_call_graph, sorted_ids};
use edda_types::infer::scc::map::{SccMap, build_scc_map};
use edda_types::infer::scc::tarjan::scc_partition;
use edda_types::intern::Symbol;
use edda_types::list::List;
use edda_types::package::{
    BindingEntry, BindingKind, FnDecl, ItemEntry, Module, Resolution, Resolved, ResolvedPackage,
};
use edda_types::span::Span;
use edda_types::syntax::Ident;
use edda_types::ty::{BindingId, ModuleId, TyId};

/// The span of a written name.
fn at(start: u32) -> Span {
    Span { file: 0, start, end: start + 1 }
}

fn list<T>(items: Vec<T>) -> List<T> {
    List::from_vec(items)
}

fn expr(kind: HirExprKind) -> HirExpr {
    HirExpr { span: Span::dummy(), kind, ty: TyId::Error }
}

fn ident(name: Symbol) -> Ident {
    Ident { name, span: Span::dummy() }
}

fn path(names: Vec<Symbol>) -> HirPath {
    let mut segments = Vec::new();
    for name in names {
        segments.push(ident(name));
    }
    HirPath { span: Span::dummy(), segments: list(segments) }
}

/// A path that the package resolves by the span of its expression.
fn read_at(names: Vec<Symbol>, span: Span) -> HirExpr {
    let mut p = path(names);
    p.span = span;
    HirExpr { span, kind: HirExprKind::Path(p), ty: TyId::Error }
}

fn block(stmts: Vec<HirStmt>, trailing: Option<HirExpr>) -> HirBlock {
    HirBlock { span: Span::dummy(), stmts: list(stmts), trailing, ty: TyId::Error }
}

fn stmt(e: HirExpr) -> HirStmt {
    HirStmt { span: Span::dummy(), kind: HirStmtKind::Expr(e) }
}

fn index(receiver: HirExpr, index: HirExpr) -> HirExpr {
    expr(HirExprKind::Index(Box::new(HirIndex { receiver, index })))
}

fn call(callee: HirExpr, args: Vec<HirCallArg>) -> HirExpr {
    expr(HirExprKind::Call(Box::new(HirCall { callee, args: list(args) })))
}

#[test]
fn empty_map_returns_false_for_every_query() {
    let m = SccMap::empty();
    let id = BindingId { module: ModuleId(0), index: 0 };
    assert!(!m.is_divergent(id));
    assert!(!m.is_recursive(id));
    assert!(!m.same_scc(id, id));
}

fn id(index: usize) -> BindingId {
    BindingId { module: ModuleId(0), index }
}

/// A package of functions; `calls[i]` are the callees of function `i`.
fn package(calls: &[&[usize]], measured: &[usize]) -> ResolvedPackage {
    let mut bindings = Vec::new();
    let mut items = Vec::new();
    let mut functions = Vec::new();
    let mut resolutions = Vec::new();
    for (i, callees) in calls.iter().enumerate() {
        let name = Symbol(i);
        bindings.push(BindingEntry { name, kind: BindingKind::Function });
        items.push(ItemEntry { name, index: i });
        resolutions.push(Resolution { span: at(i as u32), target: Resolved::Binding(id(i)) });
        let mut stmts = Vec::new();
        for callee in callees.iter() {
            stmts.push(stmt(call(read_at(vec![Symbol(*callee)], at(*callee as u32)), vec![])));
        }
        functions.push(FnDecl {
            name,
            has_decreases: measured.contains(&i),
            body: Some(block(stmts, None)),
        });
    }
    let module = Module {
        path: list(vec![]),
        bindings: list(bindings),
        items: list(items),
        functions: list(functions),
    };
    ResolvedPackage { modules: list(vec![module]), resolutions: list(resolutions) }
}

#[test]
fn self_recursion_without_a_measure_diverges() {
    let m = build_scc_map(&package(&[&[0], &[0], &[]], &[]));
    assert!(m.is_recursive(id(0)) && m.is_divergent(id(0)));
    assert!(!m.is_recursive(id(1)) && !m.is_divergent(id(1)));
    assert!(!m.is_recursive(id(2)) && !m.is_divergent(id(2)));
    assert!(m.same_scc(id(0), id(0)));
    assert!(!m.same_scc(id(0), id(1)));
    assert!(!m.same_scc(id(0), id(9)));
}

#[test]
fn self_recursion_with_a_measure_ends() {
    let m = build_scc_map(&package(&[&[0]], &[0]));
    assert!(m.is_recursive(id(0)));
    assert!(!m.is_divergent(id(0)));
}

#[test]
fn mutual_recursion_shares_one_measure() {
    // 0 -> 1 -> 2 -> 0, and 3 calls into the cycle.
    let cycle: &[&[usize]] = &[&[1], &[2], &[0], &[1]];
    let bare = build_scc_map(&package(cycle, &[]));
    for i in 0..3 {
        assert!(bare.is_recursive(id(i)) && bare.is_divergent(id(i)));
        assert!(bare.same_scc(id(0), id(i)));
    }
    assert!(!bare.is_recursive(id(3)) && !bare.same_scc(id(3), id(1)));
    let measured = build_scc_map(&package(cycle, &[2]));
    for i in 0..3 {
        assert!(measured.is_recursive(id(i)) && !measured.is_divergent(id(i)));
    }
}

#[test]
fn components_are_the_mutually_reachable_nodes() {
    // 0 -> 1 -> 0, 1 -> 2, 2 -> 3 -> 2, 4 alone.
    let adj = vec![vec![1], vec![0, 2], vec![3], vec![2], vec![]];
    let p = scc_partition(&adj);
    assert_eq!(p.scc_index[0], p.scc_index[1]);
    assert_eq!(p.scc_index[2], p.scc_index[3]);
    assert_ne!(p.scc_index[0], p.scc_index[2]);
    assert_ne!(p.scc_index[4], p.scc_index[0]);
    assert_ne!(p.scc_index[4], p.scc_index[2]);
    assert_eq!(p.sccs.len(), 3);
}

#[test]
fn call_graph_lists_each_callee_once_in_order() {
    let g = build_call_graph(&package(&[&[2, 1, 2], &[], &[]], &[]));
    let row = g.row(id(0)).unwrap();
    let callees = &g.rows[row].callees;
    assert_eq!(*callees, vec![id(1), id(2)]);
    assert!(g.row(id(7)).is_none());
    assert_eq!(sorted_ids(&vec![id(3), id(1), id(2)]), vec![id(1), id(2), id(3)]);
}

/// A task's body counts as a caller; what is handed to the task does not.
#[test]
fn task_arguments_are_no_calls() {
    let mut p = package(&[&[], &[]], &[]);
    let handed = HirSpawnArg {
        span: Span::dummy(),
        name: ident(Symbol(9)),
        ty: None,
        init: call(read_at(vec![Symbol(0)], at(0)), vec![]),
    };
    let body = block(vec![stmt(call(read_at(vec![Symbol(1)], at(1)), vec![]))], None);
    let spawn = HirSpawn { span: Span::dummy(), args: list(vec![handed]), body };
    let e = expr(HirExprKind::Spawn(Box::new(spawn)));
    let mut out = Vec::new();
    collect_block(&p, &block(vec![stmt(e)], None), &mut out);
    assert_eq!(out, vec![id(1)]);
    // A name that does not lead to a function adds nothing.
    p.resolutions = list(vec![]);
    let mut none = Vec::new();
    collect_block(
        &p,
        &block(vec![stmt(call(read_at(vec![Symbol(1)], at(1)), vec![]))], None),
        &mut none,
    );
    assert!(none.is_empty());
}
