//! What lowering and cast validation report.

use vstd::prelude::*;
use crate::ident::Id;
use crate::span::Span;

verus! {

/// A finding. Some are returned and end the lowering of one construct;
/// others are recorded and lowering goes on.
#[derive(Debug, PartialEq, Eq)]
pub enum Error {
    /// A cast between two tuples of different lengths. `left` is the span of
    /// the target, `right` that of the casted expression's type.
    InvalidTupleCast { span: Span, left: Span, right: Span },
    /// A name is already bound in the innermost scope to something that is
    /// not structurally identical to what was to be registered.
    DuplicateName { name: Id, span: Span },
    /// The registry has handed out every placeholder slot.
    TooManyTypeParams { span: Span },
    /// A finding of a pass outside this crate, by its code.
    External { span: Span, code: u32 },
}

impl Clone for Error {
    fn clone(&self) -> (r: Self)
        ensures
            r == *self,
    {
        match self {
            Error::InvalidTupleCast { span, left, right } => Error::InvalidTupleCast {
                span: *span,
                left: *left,
                right: *right,
            },
            Error::DuplicateName { name, span } => Error::DuplicateName {
                name: name.clone(),
                span: *span,
            },
            Error::TooManyTypeParams { span } => Error::TooManyTypeParams { span: *span },
            Error::External { span, code } => Error::External { span: *span, code: *code },
        }
    }
}

} // verus!
