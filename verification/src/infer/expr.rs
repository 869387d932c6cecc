//! Synthesis and checking of expressions.

use vstd::prelude::*;

use super::block::{check_block, check_block_rule, synth_block, synth_block_rule};
use super::call::direct::{synth_call, synth_call_rule};
use super::closure::{synth_closure, synth_closure_rule};
use super::comp::array::{check_array, check_array_rule, synth_array, synth_array_rule};
use super::comp::cast::{synth_cast, synth_cast_rule};
use super::comp::comptime::{
    synth_comptime, synth_comptime_block, synth_comptime_block_rule, synth_comptime_rule,
};
use super::comp::index::{synth_index, synth_index_rule};
use super::comp::range::{synth_range, synth_range_rule};
use super::comp::tuple::{
    check_tuple, check_tuple_rule, synth_tuple, synth_tuple_index, synth_tuple_index_rule,
    synth_tuple_rule,
};
use super::ctrl::branch::{check_if, check_match, if_rule, match_rule, synth_if, synth_match};
use super::ctrl::diverge::{
    synth_divergent, synth_divergent_rule, synth_panic, synth_panic_rule, synth_raise,
    synth_raise_rule, synth_return, synth_return_rule,
};
use super::ctrl::loops::{synth_loop, synth_loop_rule};
use super::cx::{group_grown, Ic, InferCx};
use super::effect::{synth_handle, synth_handle_rule, synth_try, synth_try_rule};
use super::env::TyEnv;
use super::field::{synth_field, synth_field_rule};
use super::for_loop::{synth_for, synth_for_rule};
use super::judge::{expr_judged, judged, sound, walked, Judged, Walked};
use super::method::{synth_method_call, synth_method_call_rule};
use super::op::binary::{check_binary, check_binary_rule, synth_binary, synth_binary_rule};
use super::op::unary::{check_unary, check_unary_rule, synth_unary, synth_unary_rule};
use super::path::{
    bridge, check_literal, check_synth_against_expected, literal_check, literal_ty, path_value,
    synth_literal, synth_path,
};
use super::spawn::{
    synth_await, synth_await_rule, synth_scope, synth_scope_rule, synth_spawn, synth_spawn_rule,
};
use super::struct_lit::{synth_struct_lit, synth_struct_lit_rule};
use crate::hir::{HirExpr, HirExprKind, HirFStringPart};
use crate::list::List;
use crate::prim::Primitive;
use crate::ty::TyId;

verus! {

broadcast use group_grown;

/// The type of an expression, found from the expression alone.
#[verifier::opaque]
pub open spec fn synth_expr_rule(env: TyEnv, expr: HirExpr, ic: Ic) -> Judged<HirExpr>
    decreases expr, 1nat,
{
    match expr.kind {
        HirExprKind::Literal(lit) => judged(
            env,
            ic,
            HirExpr { ty: literal_ty(lit), ..expr },
            literal_ty(lit),
        ),
        HirExprKind::Path(path) => {
            let t = path_value(path, env, ic, expr.span);
            judged(env, t.ic, HirExpr { ty: t.ty, ..expr }, t.ty)
        },
        HirExprKind::Error => judged(env, ic, HirExpr { ty: TyId::Error, ..expr }, TyId::Error),
        HirExprKind::Block(_)
        | HirExprKind::If(_)
        | HirExprKind::Match(_)
        | HirExprKind::Loop(_)
        | HirExprKind::For(_)
        | HirExprKind::Return(_)
        | HirExprKind::Break(_)
        | HirExprKind::Raise(_)
        | HirExprKind::Panic(_)
        | HirExprKind::Continue => synth_control_rule(env, expr, ic),
        HirExprKind::Binary(_)
        | HirExprKind::Unary(_)
        | HirExprKind::Tuple(_)
        | HirExprKind::Array(_)
        | HirExprKind::Cast(_)
        | HirExprKind::Index(_)
        | HirExprKind::Range(_)
        | HirExprKind::TupleIndex(_)
        | HirExprKind::FString(_) => synth_operation_rule(env, expr, ic),
        HirExprKind::Call(_)
        | HirExprKind::MethodCall(_)
        | HirExprKind::Field(_)
        | HirExprKind::StructLit(_)
        | HirExprKind::Closure(_) => synth_access_rule(env, expr, ic),
        HirExprKind::Comptime(_)
        | HirExprKind::ComptimeBlock(_)
        | HirExprKind::Try(_)
        | HirExprKind::Handle(_)
        | HirExprKind::Scope(_)
        | HirExprKind::Spawn(_)
        | HirExprKind::Await(_) => synth_region_rule(env, expr, ic),
    }
}

/// The type of an expression of the forms that stand for control flow.
#[verifier::opaque]
pub open spec fn synth_control_rule(env: TyEnv, expr: HirExpr, ic: Ic) -> Judged<HirExpr>
    decreases expr, 0nat,
{
    match expr.kind {
        HirExprKind::Block(block) => {
            let j = synth_block_rule(env, *block, ic);
            expr_judged(expr, HirExprKind::Block(Box::new(j.node)), j)
        },
        HirExprKind::If(node) => {
            let j = if_rule(env, *node, None, ic, expr.span);
            expr_judged(expr, HirExprKind::If(Box::new(j.node)), j)
        },
        HirExprKind::Match(node) => {
            let j = match_rule(env, *node, None, ic, expr.span);
            expr_judged(expr, HirExprKind::Match(Box::new(j.node)), j)
        },
        HirExprKind::Loop(node) => {
            let j = synth_loop_rule(env, *node, ic);
            expr_judged(expr, HirExprKind::Loop(Box::new(j.node)), j)
        },
        HirExprKind::For(node) => {
            let j = synth_for_rule(env, *node, ic);
            expr_judged(expr, HirExprKind::For(Box::new(j.node)), j)
        },
        HirExprKind::Return(payload) => {
            let j = synth_return_rule(env, payload, ic);
            expr_judged(expr, HirExprKind::Return(j.node), j)
        },
        HirExprKind::Break(payload) => {
            let j = synth_divergent_rule(env, payload, ic);
            expr_judged(expr, HirExprKind::Break(j.node), j)
        },
        HirExprKind::Raise(payload) => {
            let j = synth_raise_rule(env, *payload, ic);
            expr_judged(expr, HirExprKind::Raise(Box::new(j.node)), j)
        },
        HirExprKind::Panic(payload) => {
            let j = synth_panic_rule(env, *payload, ic);
            expr_judged(expr, HirExprKind::Panic(Box::new(j.node)), j)
        },
        HirExprKind::Continue => judged(
            env,
            ic,
            HirExpr { ty: TyId::Prim(Primitive::Never), ..expr },
            TyId::Prim(Primitive::Never),
        ),
        _ => judged(env, ic, HirExpr { ty: TyId::Error, ..expr }, TyId::Error),
    }
}

/// The type of an expression of the forms that stand for operators and composite values.
#[verifier::opaque]
pub open spec fn synth_operation_rule(env: TyEnv, expr: HirExpr, ic: Ic) -> Judged<HirExpr>
    decreases expr, 0nat,
{
    match expr.kind {
        HirExprKind::Binary(binary) => {
            let j = synth_binary_rule(env, *binary, ic, expr.span);
            expr_judged(expr, HirExprKind::Binary(Box::new(j.node)), j)
        },
        HirExprKind::Unary(unary) => {
            let j = synth_unary_rule(env, *unary, ic, expr.span);
            expr_judged(expr, HirExprKind::Unary(Box::new(j.node)), j)
        },
        HirExprKind::Tuple(elems) => {
            let j = synth_tuple_rule(env, elems, ic, expr.span);
            expr_judged(expr, HirExprKind::Tuple(j.node), j)
        },
        HirExprKind::Array(elems) => {
            let j = synth_array_rule(env, elems, ic, expr.span);
            expr_judged(expr, HirExprKind::Array(j.node), j)
        },
        HirExprKind::Cast(node) => {
            let j = synth_cast_rule(env, *node, ic, expr.span);
            expr_judged(expr, HirExprKind::Cast(Box::new(j.node)), j)
        },
        HirExprKind::Index(node) => {
            let j = synth_index_rule(env, *node, ic, expr.span);
            expr_judged(expr, HirExprKind::Index(Box::new(j.node)), j)
        },
        HirExprKind::Range(node) => {
            let j = synth_range_rule(env, *node, ic, expr.span);
            expr_judged(expr, HirExprKind::Range(Box::new(j.node)), j)
        },
        HirExprKind::TupleIndex(node) => {
            let j = synth_tuple_index_rule(env, *node, ic, expr.span);
            expr_judged(expr, HirExprKind::TupleIndex(Box::new(j.node)), j)
        },
        HirExprKind::FString(parts) => {
            let j = synth_fstring_rule(env, parts, ic);
            expr_judged(expr, HirExprKind::FString(j.node), j)
        },
        _ => judged(env, ic, HirExpr { ty: TyId::Error, ..expr }, TyId::Error),
    }
}

/// The type of an expression of the forms that stand for calls, fields and constructors.
#[verifier::opaque]
pub open spec fn synth_access_rule(env: TyEnv, expr: HirExpr, ic: Ic) -> Judged<HirExpr>
    decreases expr, 0nat,
{
    match expr.kind {
        HirExprKind::Call(node) => {
            let j = synth_call_rule(env, *node, ic, expr.span);
            expr_judged(expr, HirExprKind::Call(Box::new(j.node)), j)
        },
        HirExprKind::MethodCall(node) => {
            let j = synth_method_call_rule(env, *node, ic, expr.span);
            expr_judged(expr, HirExprKind::MethodCall(Box::new(j.node)), j)
        },
        HirExprKind::Field(node) => {
            let j = synth_field_rule(env, *node, ic, expr.span);
            expr_judged(expr, HirExprKind::Field(Box::new(j.node)), j)
        },
        HirExprKind::StructLit(node) => {
            let j = synth_struct_lit_rule(env, *node, ic, expr.span);
            expr_judged(expr, HirExprKind::StructLit(Box::new(j.node)), j)
        },
        HirExprKind::Closure(node) => {
            let j = synth_closure_rule(env, *node, ic);
            expr_judged(expr, HirExprKind::Closure(Box::new(j.node)), j)
        },
        _ => judged(env, ic, HirExpr { ty: TyId::Error, ..expr }, TyId::Error),
    }
}

/// The type of an expression of the forms that stand for compile-time, effect and concurrency regions.
#[verifier::opaque]
pub open spec fn synth_region_rule(env: TyEnv, expr: HirExpr, ic: Ic) -> Judged<HirExpr>
    decreases expr, 0nat,
{
    match expr.kind {
        HirExprKind::Comptime(inner) => {
            let j = synth_comptime_rule(env, *inner, ic);
            expr_judged(expr, HirExprKind::Comptime(Box::new(j.node)), j)
        },
        HirExprKind::ComptimeBlock(block) => {
            let j = synth_comptime_block_rule(env, *block, ic);
            expr_judged(expr, HirExprKind::ComptimeBlock(Box::new(j.node)), j)
        },
        HirExprKind::Try(inner) => {
            let j = synth_try_rule(env, *inner, ic, expr.span);
            expr_judged(expr, HirExprKind::Try(Box::new(j.node)), j)
        },
        HirExprKind::Handle(node) => {
            let j = synth_handle_rule(env, *node, ic);
            expr_judged(expr, HirExprKind::Handle(Box::new(j.node)), j)
        },
        HirExprKind::Scope(node) => {
            let j = synth_scope_rule(env, *node, ic, expr.span);
            expr_judged(expr, HirExprKind::Scope(Box::new(j.node)), j)
        },
        HirExprKind::Spawn(node) => {
            let j = synth_spawn_rule(env, *node, ic);
            expr_judged(expr, HirExprKind::Spawn(Box::new(j.node)), j)
        },
        HirExprKind::Await(inner) => {
            let j = synth_await_rule(env, *inner, ic);
            expr_judged(expr, HirExprKind::Await(Box::new(j.node)), j)
        },
        _ => judged(env, ic, HirExpr { ty: TyId::Error, ..expr }, TyId::Error),
    }
}

/// A piece of an interpolated string: a slot is walked.
#[verifier::opaque]
pub open spec fn fstring_part_rule(env: TyEnv, part: HirFStringPart, ic: Ic) -> Walked<
    HirFStringPart,
>
    decreases part, 0nat,
{
    match part {
        HirFStringPart::Slot(expr) => {
            let j = synth_expr_rule(env, expr, ic);
            walked(j.env, j.ic, HirFStringPart::Slot(j.node))
        },
        HirFStringPart::Text(_) => walked(env, ic, part),
    }
}

/// An interpolated string: its type is `String`.
#[verifier::opaque]
pub open spec fn synth_fstring_rule(env: TyEnv, parts: List<HirFStringPart>, ic: Ic) -> Judged<
    List<HirFStringPart>,
>
    decreases parts, 0nat,
{
    match parts {
        List::Nil => judged(env, ic, parts, TyId::Prim(Primitive::String)),
        List::Cons(part, rest) => {
            let first = fstring_part_rule(env, *part, ic);
            let others = synth_fstring_rule(first.env, *rest, first.ic);
            judged(
                others.env,
                others.ic,
                List::Cons(Box::new(first.node), Box::new(others.node)),
                others.ty,
            )
        },
    }
}

/// An expression where a type is expected.
#[verifier::opaque]
pub open spec fn check_expr_rule(env: TyEnv, expr: HirExpr, expected: TyId, ic: Ic) -> Judged<
    HirExpr,
>
    decreases expr, 2nat,
{
    match expr.kind {
        HirExprKind::Literal(lit) => {
            let t = literal_check(lit, expected, ic, expr.span);
            judged(env, t.ic, HirExpr { ty: t.ty, ..expr }, t.ty)
        },
        HirExprKind::Block(block) => {
            let j = check_block_rule(env, *block, expected, ic);
            expr_judged(expr, HirExprKind::Block(Box::new(j.node)), j)
        },
        HirExprKind::Binary(binary) => {
            let j = check_binary_rule(env, *binary, expected, ic, expr.span);
            expr_judged(expr, HirExprKind::Binary(Box::new(j.node)), j)
        },
        HirExprKind::Unary(unary) => {
            let j = check_unary_rule(env, *unary, expected, ic, expr.span);
            expr_judged(expr, HirExprKind::Unary(Box::new(j.node)), j)
        },
        HirExprKind::If(node) => {
            let j = if_rule(env, *node, Some(expected), ic, expr.span);
            expr_judged(expr, HirExprKind::If(Box::new(j.node)), j)
        },
        HirExprKind::Match(node) => {
            let j = match_rule(env, *node, Some(expected), ic, expr.span);
            expr_judged(expr, HirExprKind::Match(Box::new(j.node)), j)
        },
        HirExprKind::Tuple(elems) => {
            let j = check_tuple_rule(env, elems, expected, ic, expr.span);
            expr_judged(expr, HirExprKind::Tuple(j.node), j)
        },
        HirExprKind::Array(elems) => {
            let j = check_array_rule(env, elems, expected, ic, expr.span);
            expr_judged(expr, HirExprKind::Array(j.node), j)
        },
        _ => {
            let j = synth_expr_rule(env, expr, ic);
            let t = bridge(j.ty, expected, j.ic, expr.span);
            judged(j.env, t.ic, HirExpr { ty: t.ty, ..j.node }, t.ty)
        },
    }
}

/// Synthesise the type of an expression.
pub fn synth_expr(env: &mut TyEnv, expr: &mut HirExpr, ic: &mut InferCx<'_>) -> (r: TyId)
    ensures
        judged(*final(env), final(ic)@, *final(expr), r) == synth_expr_rule(
            *old(env),
            *old(expr),
            old(ic)@,
        ),
        sound(*old(env), old(ic)@, *final(env), final(ic)@),
    decreases *old(expr), 1nat,
{
    proof {
        reveal(synth_expr_rule);
        reveal(synth_control_rule);
        reveal(synth_operation_rule);
        reveal(synth_access_rule);
        reveal(synth_region_rule);
    }
    let span = expr.span;
    let ty = match &expr.kind {
        HirExprKind::Literal(lit) => synth_literal(lit),
        HirExprKind::Path(path) => synth_path(path, env, ic, span),
        HirExprKind::Error => ic.ty_error(),
        HirExprKind::Block(_)
        | HirExprKind::If(_)
        | HirExprKind::Match(_)
        | HirExprKind::Loop(_)
        | HirExprKind::For(_)
        | HirExprKind::Return(_)
        | HirExprKind::Break(_)
        | HirExprKind::Raise(_)
        | HirExprKind::Panic(_)
        | HirExprKind::Continue => {
            return synth_control(env, expr, ic);
        },
        HirExprKind::Binary(_)
        | HirExprKind::Unary(_)
        | HirExprKind::Tuple(_)
        | HirExprKind::Array(_)
        | HirExprKind::Cast(_)
        | HirExprKind::Index(_)
        | HirExprKind::Range(_)
        | HirExprKind::TupleIndex(_)
        | HirExprKind::FString(_) => {
            return synth_operation(env, expr, ic);
        },
        HirExprKind::Call(_)
        | HirExprKind::MethodCall(_)
        | HirExprKind::Field(_)
        | HirExprKind::StructLit(_)
        | HirExprKind::Closure(_) => {
            return synth_access(env, expr, ic);
        },
        HirExprKind::Comptime(_)
        | HirExprKind::ComptimeBlock(_)
        | HirExprKind::Try(_)
        | HirExprKind::Handle(_)
        | HirExprKind::Scope(_)
        | HirExprKind::Spawn(_)
        | HirExprKind::Await(_) => {
            return synth_region(env, expr, ic);
        },
    };
    expr.ty = ty;
    ty
}

fn synth_control(env: &mut TyEnv, expr: &mut HirExpr, ic: &mut InferCx<'_>) -> (r: TyId)
    ensures
        judged(*final(env), final(ic)@, *final(expr), r) == synth_control_rule(
            *old(env),
            *old(expr),
            old(ic)@,
        ),
        sound(*old(env), old(ic)@, *final(env), final(ic)@),
    decreases *old(expr), 0nat,
{
    proof {
        reveal(synth_control_rule);
        reveal(if_rule);
        reveal(match_rule);
        reveal(synth_block_rule);
        reveal(synth_divergent_rule);
        reveal(synth_for_rule);
        reveal(synth_loop_rule);
        reveal(synth_panic_rule);
        reveal(synth_raise_rule);
        reveal(synth_return_rule);
    }
    let span = expr.span;
    let ty = match &mut expr.kind {
        HirExprKind::Block(block) => synth_block(env, block, ic),
        HirExprKind::If(node) => synth_if(env, node, ic, span),
        HirExprKind::Match(node) => synth_match(env, node, ic, span),
        HirExprKind::Loop(node) => synth_loop(env, node, ic),
        HirExprKind::For(node) => synth_for(env, node, ic),
        HirExprKind::Return(payload) => synth_return(env, payload, ic),
        HirExprKind::Break(payload) => synth_divergent(env, payload, ic),
        HirExprKind::Raise(payload) => synth_raise(env, payload, ic),
        HirExprKind::Panic(payload) => synth_panic(env, payload, ic),
        HirExprKind::Continue => TyId::Prim(Primitive::Never),
        _ => ic.ty_error(),
    };
    expr.ty = ty;
    ty
}

fn synth_operation(env: &mut TyEnv, expr: &mut HirExpr, ic: &mut InferCx<'_>) -> (r: TyId)
    ensures
        judged(*final(env), final(ic)@, *final(expr), r) == synth_operation_rule(
            *old(env),
            *old(expr),
            old(ic)@,
        ),
        sound(*old(env), old(ic)@, *final(env), final(ic)@),
    decreases *old(expr), 0nat,
{
    proof {
        reveal(synth_operation_rule);
        reveal(synth_array_rule);
        reveal(synth_binary_rule);
        reveal(synth_cast_rule);
        reveal(synth_fstring_rule);
        reveal(synth_index_rule);
        reveal(synth_range_rule);
        reveal(synth_tuple_index_rule);
        reveal(synth_tuple_rule);
        reveal(synth_unary_rule);
    }
    let span = expr.span;
    let ty = match &mut expr.kind {
        HirExprKind::Binary(binary) => synth_binary(env, binary, ic, span),
        HirExprKind::Unary(unary) => synth_unary(env, unary, ic, span),
        HirExprKind::Tuple(elems) => synth_tuple(env, elems, ic, span),
        HirExprKind::Array(elems) => synth_array(env, elems, ic, span),
        HirExprKind::Cast(node) => synth_cast(env, node, ic, span),
        HirExprKind::Index(node) => synth_index(env, node, ic, span),
        HirExprKind::Range(node) => synth_range(env, node, ic, span),
        HirExprKind::TupleIndex(node) => synth_tuple_index(env, node, ic, span),
        HirExprKind::FString(parts) => synth_fstring(env, parts, ic),
        _ => ic.ty_error(),
    };
    expr.ty = ty;
    ty
}

fn synth_access(env: &mut TyEnv, expr: &mut HirExpr, ic: &mut InferCx<'_>) -> (r: TyId)
    ensures
        judged(*final(env), final(ic)@, *final(expr), r) == synth_access_rule(
            *old(env),
            *old(expr),
            old(ic)@,
        ),
        sound(*old(env), old(ic)@, *final(env), final(ic)@),
    decreases *old(expr), 0nat,
{
    proof {
        reveal(synth_access_rule);
        reveal(synth_call_rule);
        reveal(synth_closure_rule);
        reveal(synth_field_rule);
        reveal(synth_method_call_rule);
        reveal(synth_struct_lit_rule);
    }
    let span = expr.span;
    let ty = match &mut expr.kind {
        HirExprKind::Call(node) => synth_call(env, node, ic, span),
        HirExprKind::MethodCall(node) => synth_method_call(env, node, ic, span),
        HirExprKind::Field(node) => synth_field(env, node, ic, span),
        HirExprKind::StructLit(node) => synth_struct_lit(env, node, ic, span),
        HirExprKind::Closure(node) => synth_closure(env, node, ic),
        _ => ic.ty_error(),
    };
    expr.ty = ty;
    ty
}

fn synth_region(env: &mut TyEnv, expr: &mut HirExpr, ic: &mut InferCx<'_>) -> (r: TyId)
    ensures
        judged(*final(env), final(ic)@, *final(expr), r) == synth_region_rule(
            *old(env),
            *old(expr),
            old(ic)@,
        ),
        sound(*old(env), old(ic)@, *final(env), final(ic)@),
    decreases *old(expr), 0nat,
{
    proof {
        reveal(synth_region_rule);
        reveal(synth_await_rule);
        reveal(synth_comptime_block_rule);
        reveal(synth_comptime_rule);
        reveal(synth_handle_rule);
        reveal(synth_scope_rule);
        reveal(synth_spawn_rule);
        reveal(synth_try_rule);
    }
    let span = expr.span;
    let ty = match &mut expr.kind {
        HirExprKind::Comptime(inner) => synth_comptime(env, inner, ic),
        HirExprKind::ComptimeBlock(block) => synth_comptime_block(env, block, ic),
        HirExprKind::Try(inner) => synth_try(env, inner, ic, span),
        HirExprKind::Handle(node) => synth_handle(env, node, ic),
        HirExprKind::Scope(node) => synth_scope(env, node, ic, span),
        HirExprKind::Spawn(node) => synth_spawn(env, node, ic),
        HirExprKind::Await(inner) => synth_await(env, inner, ic),
        _ => ic.ty_error(),
    };
    expr.ty = ty;
    ty
}

fn synth_fstring_part(env: &mut TyEnv, part: &mut HirFStringPart, ic: &mut InferCx<'_>)
    ensures
        walked(*final(env), final(ic)@, *final(part)) == fstring_part_rule(
            *old(env),
            *old(part),
            old(ic)@,
        ),
        sound(*old(env), old(ic)@, *final(env), final(ic)@),
    decreases *old(part), 0nat,
{
    proof {
        reveal(fstring_part_rule);
        reveal(synth_expr_rule);
    }
    match part {
        HirFStringPart::Slot(expr) => {
            synth_expr(env, expr, ic);
        },
        HirFStringPart::Text(_) => {},
    }
}

fn synth_fstring(env: &mut TyEnv, parts: &mut List<HirFStringPart>, ic: &mut InferCx<'_>) -> (r:
    TyId)
    ensures
        judged(*final(env), final(ic)@, *final(parts), r) == synth_fstring_rule(
            *old(env),
            *old(parts),
            old(ic)@,
        ),
        sound(*old(env), old(ic)@, *final(env), final(ic)@),
    decreases *old(parts), 0nat,
{
    proof {
        reveal(synth_fstring_rule);
        reveal(fstring_part_rule);
    }
    match parts {
        List::Nil => TyId::Prim(Primitive::String),
        List::Cons(part, rest) => {
            synth_fstring_part(env, part, ic);
            synth_fstring(env, rest, ic)
        },
    }
}

/// Check an expression against a type; its own type is written into the node.
pub fn check_expr(env: &mut TyEnv, expr: &mut HirExpr, expected: TyId, ic: &mut InferCx<'_>)
    ensures
        judged(*final(env), final(ic)@, *final(expr), final(expr).ty) == check_expr_rule(
            *old(env),
            *old(expr),
            expected,
            old(ic)@,
        ),
        sound(*old(env), old(ic)@, *final(env), final(ic)@),
    decreases *old(expr), 2nat,
{
    proof {
        reveal(check_expr_rule);
        reveal(synth_expr_rule);
        reveal(check_block_rule);
        reveal(check_binary_rule);
        reveal(check_unary_rule);
        reveal(if_rule);
        reveal(match_rule);
        reveal(check_tuple_rule);
        reveal(check_array_rule);
    }
    let span = expr.span;
    let ty = match &mut expr.kind {
        HirExprKind::Literal(lit) => check_literal(lit, expected, ic, span),
        HirExprKind::Block(block) => check_block(env, block, expected, ic),
        HirExprKind::Binary(binary) => check_binary(env, binary, expected, ic, span),
        HirExprKind::Unary(unary) => check_unary(env, unary, expected, ic, span),
        HirExprKind::If(node) => check_if(env, node, expected, ic, span),
        HirExprKind::Match(node) => check_match(env, node, expected, ic, span),
        HirExprKind::Tuple(elems) => check_tuple(env, elems, expected, ic, span),
        HirExprKind::Array(elems) => check_array(env, elems, expected, ic, span),
        _ => {
            let synth = synth_expr(env, expr, ic);
            check_synth_against_expected(synth, expected, ic, span)
        },
    };
    expr.ty = ty;
}

} // verus!
