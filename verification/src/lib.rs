//! Static checking, source formatting and diagnostics for a small systems
//! language with ownership, contracts and tasks.
//!
//! Every executable function carries a contract over the mathematical content
//! of its arguments: `String` is read as `Seq<char>`, `Vec<T>` as a `Seq`, and
//! each tree type `T` as its mirror `TView`.

pub mod text;
pub mod ast;
pub mod construct;
pub mod diagnostic;
pub mod sheet;
pub mod format;
pub mod ir;
pub mod types;
pub mod state;
pub mod scope;
pub mod typing;
pub mod resolve;
pub mod hoist;
pub mod mono;
pub mod signatures;
pub mod numeric;
pub mod rewrite;
pub mod effects;
pub mod prove;
pub mod meaning;
pub mod moves;
pub mod operators;
pub mod calls;
pub mod exprs;
pub mod statements;
pub mod body;
pub mod known;
pub mod registry;
pub mod checker;
pub mod grammar;
pub mod lowering;
