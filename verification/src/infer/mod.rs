//! Bidirectional inference.

pub mod arg_laws;
pub mod arity_laws;
pub mod arm_laws;
pub mod block;
pub mod block_laws;
pub mod body_laws;
pub mod builtin_laws;
pub mod call;
pub mod call_laws;
pub mod callee_laws;
pub mod check_laws;
pub mod closure;
pub mod comp;
pub mod comp_laws;
pub mod comptime_call;
pub mod construct_laws;
pub mod cover_laws;
pub mod ctrl;
pub mod cx;
pub mod derive_laws;
pub mod diverge_laws;
pub mod effect;
pub mod env;
pub mod env_laws;
pub mod exit_laws;
pub mod expect_laws;
pub mod expr;
pub mod field;
pub mod fn_body;
pub mod for_laws;
pub mod for_loop;
pub mod guard_laws;
pub mod handle_laws;
pub mod if_laws;
pub mod indirect_laws;
pub mod intrinsic_laws;
pub mod join_laws;
pub mod judge;
pub mod laws;
pub mod lit;
pub mod literal_laws;
pub mod loop_laws;
pub mod method;
pub mod method_laws;
pub mod mode;
pub mod mode_laws;
pub mod name_laws;
pub mod op;
pub mod op_laws;
pub mod pat;
pub mod path;
pub mod pattern_laws;
pub mod perform_laws;
pub mod place_laws;
pub mod pointer_laws;
pub mod receiver_laws;
pub mod region_laws;
pub mod report_laws;
pub mod row_acc;
pub mod scc;
pub mod shape_laws;
pub mod slice_laws;
pub mod spawn;
pub mod spawn_laws;
pub mod stmt;
pub mod stmt_laws;
pub mod struct_laws;
pub mod struct_lit;
pub mod task_laws;
pub mod tuple_laws;
pub mod unary_laws;
pub mod value_laws;
