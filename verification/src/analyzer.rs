//! The state that lowering works on.

use vstd::prelude::*;
use crate::errors::Error;
use crate::expr::Expr;
use crate::list::{pushed_is_last, List};
use crate::scope::{ScopeKind, Scopes};
use crate::span::{Mark, Span};
use crate::ty::Type;

verus! {

/// The marks that lowering attaches to spans.
#[derive(Clone, Copy, Debug, PartialEq, Eq, Structural)]
pub struct Marks {
    /// On annotations that defaulting made.
    pub implicit_type_mark: Mark,
    /// On types that must not be unfolded further.
    pub no_expand_mark: Mark,
    /// On literal types that must not be widened.
    pub prevent_generalization_mark: Mark,
}

/// What the checker of key expressions found wrong with the key at `span`.
#[derive(Debug, PartialEq, Eq)]
pub struct KeyFinding {
    pub span: Span,
    pub error: Error,
}

/// The state of one checking pass.
#[derive(Debug, PartialEq, Eq)]
pub struct Analyzer {
    /// The registry of named types.
    pub scope: Scopes,
    /// The findings recorded so far, in the order recorded.
    pub errors: List<Error>,
    /// Whether the declarations being lowered belong to the built-in
    /// library.
    pub is_builtin: bool,
    pub marks: Marks,
    /// The verdicts of the checker of key expressions on the computed keys
    /// of the tree to lower: one entry for each key that it rejects.
    pub key_findings: List<KeyFinding>,
}

/// The first finding about the key at `span`.
pub open spec fn key_finding(findings: List<KeyFinding>, span: Span) -> Option<Error>
    decreases findings,
{
    match findings {
        List::Nil => None,
        List::Cons(f, rest) => if f.span == span {
            Some(f.error)
        } else {
            key_finding(*rest, span)
        },
    }
}

fn find_key_finding(findings: &List<KeyFinding>, span: Span) -> (e: Option<Error>)
    ensures
        e == key_finding(*findings, span),
    decreases *findings,
{
    match findings {
        List::Nil => None,
        List::Cons(f, rest) => {
            if f.span == span {
                Some(f.error.clone())
            } else {
                find_key_finding(rest, span)
            }
        },
    }
}

impl Analyzer {
    /// This state with `e` recorded after the findings so far.
    pub open spec fn stored(self, e: Error) -> Analyzer {
        Analyzer { errors: self.errors.pushed(e), ..self }
    }

    /// This state after the computed key `key` was checked: the finding
    /// about it, if there is one, is recorded.
    pub open spec fn key_checked(self, key: Expr) -> Analyzer {
        match key_finding(self.key_findings, key.span_of()) {
            Some(e) => self.stored(e),
            None => self,
        }
    }

    /// Whether this state is `before` after some steps of lowering in the
    /// same scope: the flags, marks and key findings are the same, and the
    /// registry continues that of `before`.
    pub open spec fn continues(self, before: Analyzer) -> bool {
        &&& self.is_builtin == before.is_builtin
        &&& self.marks == before.marks
        &&& self.key_findings == before.key_findings
        &&& self.scope.continues(before.scope)
        &&& before.errors@.len() <= self.errors@.len()
        &&& forall|i: int|
            0 <= i < before.errors@.len() ==> self.errors@[i] == #[trigger] before.errors@[i]
    }

    /// Recording a finding continues the state: the finding comes behind
    /// those recorded before.
    pub proof fn storing_continues(self, e: Error)
        ensures
            self.stored(e).continues(self),
            self.stored(e).errors@ == self.errors@.push(e),
    {
        pushed_is_last(self.errors, e);
    }

    /// Checking a computed key continues the state.
    pub proof fn checking_a_key_continues(self, key: Expr)
        ensures
            self.key_checked(key).continues(self),
    {
        match key_finding(self.key_findings, key.span_of()) {
            Some(e) => self.storing_continues(e),
            None => {},
        }
    }

    /// This state with the registry replaced.
    pub open spec fn with_scope(self, scope: Scopes) -> Analyzer {
        Analyzer { scope, ..self }
    }

    /// This state inside a new scope.
    pub open spec fn in_child(self, kind: ScopeKind) -> Analyzer {
        self.with_scope(self.scope.pushed(kind))
    }

    /// This state with the innermost scope closed.
    pub open spec fn out_of_child(self) -> Analyzer {
        self.with_scope(self.scope.popped())
    }

    /// A state with an empty registry and nothing recorded.
    pub fn new(marks: Marks, is_builtin: bool, key_findings: List<KeyFinding>) -> (a: Analyzer)
        ensures
            a == (Analyzer {
                scope: Scopes {
                    current: crate::scope::Scope { kind: ScopeKind::Module, types: List::Nil },
                    parents: List::Nil,
                    slots: List::Nil,
                    next_slot: 0,
                },
                errors: List::Nil,
                is_builtin,
                marks,
                key_findings,
            }),
            a.scope.wf(),
    {
        Analyzer { scope: Scopes::new(), errors: List::Nil, is_builtin, marks, key_findings }
    }

    /// Records a finding; lowering goes on.
    pub fn store(&mut self, e: Error)
        ensures
            *final(self) == old(self).stored(e),
    {
        self.errors.push(e);
    }

    /// Records what the checker of key expressions found about `key`, if
    /// it found anything.
    pub fn validate_computed_prop_key(&mut self, key: &Expr)
        ensures
            *final(self) == old(self).key_checked(*key),
    {
        match find_key_finding(&self.key_findings, key.span()) {
            Some(e) => self.store(e),
            None => {},
        }
    }

    /// Marks a type as one that must not be unfolded further.
    pub fn prevent_expansion(&self, ty: &mut Type)
        ensures
            *final(ty) == old(ty).marked(self.marks.no_expand_mark),
    {
        ty.apply_mark(self.marks.no_expand_mark);
    }

    /// Marks a type as one that must not be widened.
    pub fn prevent_generalize(&self, ty: &mut Type)
        ensures
            *final(ty) == old(ty).marked(self.marks.prevent_generalization_mark),
    {
        ty.apply_mark(self.marks.prevent_generalization_mark);
    }
}

} // verus!
