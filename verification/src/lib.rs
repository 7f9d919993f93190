//! Type lowering and cast validation for a TypeScript checker.
//!
//! The crate turns syntactic type annotations into semantic types, keeps the
//! lexical scopes of type parameters, aliases and interfaces while it does so,
//! gives untyped binding patterns an implicit annotation, and decides which
//! explicit casts are structurally permitted.
//!
//! Every tree in this crate is an algebraic value: sequences are [`list::List`]s,
//! so two trees are equal exactly when they have the same shape and leaves, and
//! each function's contract states its result as a plain mathematical function
//! of its arguments.
//!
//! * [`ast`], [`expr`], [`ident`], [`span`]: the syntax that a parser hands
//!   in;
//! * [`ty`]: the semantic types; [`type_eq`]: their structural identity;
//!   [`util`]: searches over them;
//! * [`scope`]: the registry of named types and of the placeholders that
//!   stand for type parameters;
//! * [`default_any`]: implicit annotations for untyped parameters;
//! * [`lower`]: what lowering computes, as mathematical functions;
//!   [`convert`]: the functions that compute it; [`analyzer`]: the state
//!   that they work on; [`weight`]: the measure by which they terminate;
//! * [`type_cast`]: which casts are permitted;
//! * [`errors`]: what is reported.

pub mod list;
pub mod span;
pub mod ident;
pub mod expr;
pub mod ast;
pub mod ty;
pub mod type_eq;
pub mod errors;
pub mod type_cast;
pub mod default_any;
pub mod scope;
pub mod util;
pub mod weight;
pub mod analyzer;
pub mod lower;
pub mod convert;
