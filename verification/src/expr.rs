//! The few expressions that occur inside types: literals, property keys and
//! dotted names.

use vstd::prelude::*;
use crate::ident::Ident;
use crate::span::Span;

verus! {

/// A string literal.
#[derive(Debug, PartialEq, Eq)]
pub struct Str {
    pub span: Span,
    pub value: String,
}

/// A numeric literal. `bits` is the IEEE 754 binary64 encoding of its value.
#[derive(Clone, Copy, Debug, PartialEq, Eq, Structural)]
pub struct Number {
    pub span: Span,
    pub bits: u64,
}

/// A big integer literal, by its decimal digits.
#[derive(Debug, PartialEq, Eq)]
pub struct BigInt {
    pub span: Span,
    pub digits: String,
}

/// A boolean literal.
#[derive(Clone, Copy, Debug, PartialEq, Eq, Structural)]
pub struct Bool {
    pub span: Span,
    pub value: bool,
}

/// An expression that this crate carries but never looks into. `handle` tells
/// the owner of the syntax tree which expression it is.
#[derive(Clone, Copy, Debug, PartialEq, Eq, Structural)]
pub struct OpaqueExpr {
    pub span: Span,
    pub handle: u64,
}

/// An expression in a key or default position.
#[derive(Debug, PartialEq, Eq)]
pub enum Expr {
    Ident(Ident),
    Str(Str),
    Num(Number),
    BigInt(BigInt),
    Opaque(OpaqueExpr),
}

/// A key written in square brackets.
#[derive(Debug, PartialEq, Eq)]
pub struct ComputedPropName {
    pub span: Span,
    pub expr: Box<Expr>,
}

/// The key of a property in an object pattern.
#[derive(Debug, PartialEq, Eq)]
pub enum PropName {
    Ident(Ident),
    Str(Str),
    Num(Number),
    BigInt(BigInt),
    Computed(ComputedPropName),
}

/// A dotted name: `left.right`.
#[derive(Debug, PartialEq, Eq)]
pub struct TsQualifiedName {
    pub left: TsEntityName,
    pub right: Ident,
}

/// The name of an entity: an identifier or a dotted name.
#[derive(Debug, PartialEq, Eq)]
pub enum TsEntityName {
    TsQualifiedName(Box<TsQualifiedName>),
    Ident(Ident),
}

impl Str {
    /// Whether two string literals have the same value.
    pub open spec fn alike(self, other: Str) -> bool {
        self.value@ == other.value@
    }

    /// Compares two string literals, positions aside.
    pub fn eq_ignore_span(&self, other: &Str) -> (b: bool)
        ensures
            b == self.alike(*other),
    {
        self.value == other.value
    }
}

impl Clone for Str {
    fn clone(&self) -> (r: Self)
        ensures
            r == *self,
    {
        Str { span: self.span, value: self.value.clone() }
    }
}

impl BigInt {
    /// Whether two big integer literals have the same digits.
    pub open spec fn alike(self, other: BigInt) -> bool {
        self.digits@ == other.digits@
    }

    /// Compares two big integer literals, positions aside.
    pub fn eq_ignore_span(&self, other: &BigInt) -> (b: bool)
        ensures
            b == self.alike(*other),
    {
        self.digits == other.digits
    }
}

impl Clone for BigInt {
    fn clone(&self) -> (r: Self)
        ensures
            r == *self,
    {
        BigInt { span: self.span, digits: self.digits.clone() }
    }
}

impl Expr {
    /// Where the expression stands in the source.
    pub open spec fn span_of(self) -> Span {
        match self {
            Expr::Ident(i) => i.span,
            Expr::Str(s) => s.span,
            Expr::Num(n) => n.span,
            Expr::BigInt(b) => b.span,
            Expr::Opaque(o) => o.span,
        }
    }

    /// Whether two expressions agree in everything but their positions.
    pub open spec fn alike(self, other: Expr) -> bool {
        match (self, other) {
            (Expr::Ident(a), Expr::Ident(b)) => a.alike(b),
            (Expr::Str(a), Expr::Str(b)) => a.alike(b),
            (Expr::Num(a), Expr::Num(b)) => a.bits == b.bits,
            (Expr::BigInt(a), Expr::BigInt(b)) => a.alike(b),
            (Expr::Opaque(a), Expr::Opaque(b)) => a.handle == b.handle,
            _ => false,
        }
    }

    /// Where the expression stands in the source.
    pub fn span(&self) -> (s: Span)
        ensures
            s == self.span_of(),
    {
        match self {
            Expr::Ident(i) => i.span,
            Expr::Str(s) => s.span,
            Expr::Num(n) => n.span,
            Expr::BigInt(b) => b.span,
            Expr::Opaque(o) => o.span,
        }
    }

    /// Compares two expressions, positions aside.
    pub fn eq_ignore_span(&self, other: &Expr) -> (b: bool)
        ensures
            b == self.alike(*other),
    {
        match (self, other) {
            (Expr::Ident(a), Expr::Ident(b)) => a.eq_ignore_span(b),
            (Expr::Str(a), Expr::Str(b)) => a.eq_ignore_span(b),
            (Expr::Num(a), Expr::Num(b)) => a.bits == b.bits,
            (Expr::BigInt(a), Expr::BigInt(b)) => a.eq_ignore_span(b),
            (Expr::Opaque(a), Expr::Opaque(b)) => a.handle == b.handle,
            _ => false,
        }
    }
}

impl Clone for Expr {
    fn clone(&self) -> (r: Self)
        ensures
            r == *self,
    {
        match self {
            Expr::Ident(i) => Expr::Ident(i.clone()),
            Expr::Str(s) => Expr::Str(s.clone()),
            Expr::Num(n) => Expr::Num(*n),
            Expr::BigInt(b) => Expr::BigInt(b.clone()),
            Expr::Opaque(o) => Expr::Opaque(*o),
        }
    }
}

impl Clone for PropName {
    fn clone(&self) -> (r: Self)
        ensures
            r == *self,
    {
        match self {
            PropName::Ident(i) => PropName::Ident(i.clone()),
            PropName::Str(s) => PropName::Str(s.clone()),
            PropName::Num(n) => PropName::Num(*n),
            PropName::BigInt(b) => PropName::BigInt(b.clone()),
            PropName::Computed(c) => PropName::Computed(
                ComputedPropName { span: c.span, expr: Box::new((*c.expr).clone()) },
            ),
        }
    }
}

/// The expression that names the same property as `p`: an identifier, string,
/// number or big integer key as the literal of its kind, a key in square
/// brackets as the expression between them.
pub open spec fn key_expr(p: PropName) -> Expr {
    match p {
        PropName::Ident(i) => Expr::Ident(i),
        PropName::Str(s) => Expr::Str(s),
        PropName::Num(n) => Expr::Num(n),
        PropName::BigInt(b) => Expr::BigInt(b),
        PropName::Computed(c) => *c.expr,
    }
}

/// Turns a property key into the expression that names the same property.
pub fn prop_name_to_expr(p: PropName) -> (e: Expr)
    ensures
        e == key_expr(p),
{
    match p {
        PropName::Ident(i) => Expr::Ident(i),
        PropName::Str(s) => Expr::Str(s),
        PropName::Num(n) => Expr::Num(n),
        PropName::BigInt(b) => Expr::BigInt(b),
        PropName::Computed(c) => *c.expr,
    }
}

impl TsEntityName {
    /// Whether two names agree in everything but their positions.
    pub open spec fn alike(self, other: TsEntityName) -> bool
        decreases self,
    {
        match (self, other) {
            (TsEntityName::Ident(a), TsEntityName::Ident(b)) => a.alike(b),
            (TsEntityName::TsQualifiedName(a), TsEntityName::TsQualifiedName(b)) => a.left.alike(
                b.left,
            ) && a.right.alike(b.right),
            _ => false,
        }
    }

    /// Compares two names, positions aside.
    pub fn eq_ignore_span(&self, other: &TsEntityName) -> (b: bool)
        ensures
            b == self.alike(*other),
        decreases *self,
    {
        match (self, other) {
            (TsEntityName::Ident(a), TsEntityName::Ident(b)) => a.eq_ignore_span(b),
            (TsEntityName::TsQualifiedName(a), TsEntityName::TsQualifiedName(b)) => {
                a.left.eq_ignore_span(&b.left) && a.right.eq_ignore_span(&b.right)
            },
            _ => false,
        }
    }
}

impl Clone for TsEntityName {
    fn clone(&self) -> (r: Self)
        ensures
            r == *self,
        decreases *self,
    {
        match self {
            TsEntityName::Ident(i) => TsEntityName::Ident(i.clone()),
            TsEntityName::TsQualifiedName(q) => TsEntityName::TsQualifiedName(
                Box::new(TsQualifiedName { left: q.left.clone(), right: q.right.clone() }),
            ),
        }
    }
}

} // verus!
