//! Identifiers and the names that scopes are keyed by.

use vstd::prelude::*;
use crate::span::Span;

verus! {

/// What a scope knows a name by: its text and the context of the identifier
/// it was written as.
#[derive(Debug, PartialEq, Eq)]
pub struct Id {
    pub sym: String,
    pub ctxt: u64,
}

/// An identifier as written in the source.
#[derive(Debug, PartialEq, Eq)]
pub struct Ident {
    pub span: Span,
    /// The context that tells identifiers of the same text apart. It is kept
    /// apart from the marks that passes attach to spans.
    pub ctxt: u64,
    pub sym: String,
    /// Whether a `?` follows the identifier.
    pub optional: bool,
}

impl Id {
    /// Whether two names have the same text and the same context.
    pub open spec fn same(self, other: Id) -> bool {
        self.sym@ == other.sym@ && self.ctxt == other.ctxt
    }

    /// Compares two names.
    pub fn is(&self, other: &Id) -> (b: bool)
        ensures
            b == self.same(*other),
    {
        self.sym == other.sym && self.ctxt == other.ctxt
    }
}

impl Clone for Id {
    fn clone(&self) -> (r: Self)
        ensures
            r == *self,
    {
        Id { sym: self.sym.clone(), ctxt: self.ctxt }
    }
}

impl Ident {
    /// The name that this identifier is known by.
    pub open spec fn id(self) -> Id {
        Id { sym: self.sym, ctxt: self.ctxt }
    }

    /// Whether two identifiers agree in everything but their positions.
    pub open spec fn alike(self, other: Ident) -> bool {
        self.id().same(other.id()) && self.optional == other.optional
    }

    /// The name that this identifier is known by.
    pub fn to_id(&self) -> (id: Id)
        ensures
            id == self.id(),
    {
        Id { sym: self.sym.clone(), ctxt: self.ctxt }
    }

    /// Compares two identifiers, positions aside.
    pub fn eq_ignore_span(&self, other: &Ident) -> (b: bool)
        ensures
            b == self.alike(*other),
    {
        self.sym == other.sym && self.ctxt == other.ctxt && self.optional == other.optional
    }
}

impl Clone for Ident {
    fn clone(&self) -> (r: Self)
        ensures
            r == *self,
    {
        Ident {
            span: self.span,
            ctxt: self.ctxt,
            sym: self.sym.clone(),
            optional: self.optional,
        }
    }
}

} // verus!
