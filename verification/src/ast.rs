//! The syntax tree that lowering consumes: type annotations, the members of
//! type literals and interfaces, binding patterns and declarations.
//!
//! A parser outside this crate builds these values. Lowering and defaulting
//! write annotations back into them.

use vstd::prelude::*;
use crate::expr::{BigInt, Bool, Expr, Number, OpaqueExpr, PropName, Str, TsEntityName};
use crate::ident::Ident;
use crate::list::List;
use crate::span::Span;

verus! {

/// The keyword of a keyword type.
#[derive(Clone, Copy, Debug, PartialEq, Eq, Structural)]
pub enum TsKeywordTypeKind {
    TsAnyKeyword,
    TsUnknownKeyword,
    TsNumberKeyword,
    TsObjectKeyword,
    TsBooleanKeyword,
    TsBigIntKeyword,
    TsStringKeyword,
    TsSymbolKeyword,
    TsVoidKeyword,
    TsUndefinedKeyword,
    TsNullKeyword,
    TsNeverKeyword,
}

/// A keyword type: `any`, `string`, `never` and the like.
#[derive(Clone, Copy, Debug, PartialEq, Eq, Structural)]
pub struct TsKeywordType {
    pub span: Span,
    pub kind: TsKeywordTypeKind,
}

/// The type `this`.
#[derive(Clone, Copy, Debug, PartialEq, Eq, Structural)]
pub struct TsThisType {
    pub span: Span,
}

/// The operator of a type operator.
#[derive(Clone, Copy, Debug, PartialEq, Eq, Structural)]
pub enum TsTypeOperatorOp {
    KeyOf,
    Unique,
    ReadOnly,
}

/// A modifier of a mapped type: present, `+` or `-`.
#[derive(Clone, Copy, Debug, PartialEq, Eq, Structural)]
pub enum TruePlusMinus {
    True,
    Plus,
    Minus,
}

/// The literal of a literal type.
#[derive(Debug, PartialEq, Eq)]
pub enum TsLit {
    Number(Number),
    Str(Str),
    Bool(Bool),
    BigInt(BigInt),
    /// A template literal, carried but never looked into.
    Tpl(OpaqueExpr),
}

/// A literal type: `"a"`, `1`, `true`.
#[derive(Debug, PartialEq, Eq)]
pub struct TsLitType {
    pub span: Span,
    pub lit: TsLit,
}

/// What a type predicate speaks of: `this` or a parameter.
#[derive(Debug, PartialEq, Eq)]
pub enum TsThisTypeOrIdent {
    TsThisType(TsThisType),
    Ident(Ident),
}

/// A type annotation: `: T`.
#[derive(Debug, PartialEq, Eq)]
pub struct TsTypeAnn {
    pub span: Span,
    pub type_ann: Box<TsType>,
}

/// The declaration of one type parameter: `T extends C = D`.
#[derive(Debug, PartialEq, Eq)]
pub struct TsTypeParam {
    pub span: Span,
    pub name: Ident,
    pub constraint: Option<Box<TsType>>,
    pub default: Option<Box<TsType>>,
}

/// A list of type parameter declarations: `<T, U>`.
#[derive(Debug, PartialEq, Eq)]
pub struct TsTypeParamDecl {
    pub span: Span,
    pub params: List<TsTypeParam>,
}

/// A list of type arguments: `<string, number>`.
#[derive(Debug, PartialEq, Eq)]
pub struct TsTypeParamInstantiation {
    pub span: Span,
    pub params: List<TsType>,
}

/// An identifier that binds a variable, with its annotation.
#[derive(Debug, PartialEq, Eq)]
pub struct BindingIdent {
    pub id: Ident,
    pub type_ann: Option<TsTypeAnn>,
}

/// An array pattern: `[a, , b]`. A hole is `None`.
#[derive(Debug, PartialEq, Eq)]
pub struct ArrayPat {
    pub span: Span,
    pub elems: List<Option<Pat>>,
    pub optional: bool,
    pub type_ann: Option<TsTypeAnn>,
}

/// A rest pattern: `...rest`.
#[derive(Debug, PartialEq, Eq)]
pub struct RestPat {
    pub span: Span,
    pub arg: Box<Pat>,
    pub type_ann: Option<TsTypeAnn>,
}

/// An object pattern: `{ a, b: c, ...rest }`.
#[derive(Debug, PartialEq, Eq)]
pub struct ObjectPat {
    pub span: Span,
    pub props: List<ObjectPatProp>,
    pub optional: bool,
    pub type_ann: Option<TsTypeAnn>,
}

/// A pattern with a default value: `left = right`.
#[derive(Debug, PartialEq, Eq)]
pub struct AssignPat {
    pub span: Span,
    pub left: Box<Pat>,
    pub right: Box<Expr>,
}

/// A property of an object pattern that names its value pattern: `key: value`.
#[derive(Debug, PartialEq, Eq)]
pub struct KeyValuePatProp {
    pub key: PropName,
    pub value: Box<Pat>,
}

/// A shorthand property of an object pattern: `key` or `key = value`.
#[derive(Debug, PartialEq, Eq)]
pub struct AssignPatProp {
    pub span: Span,
    pub key: Ident,
    pub value: Option<Box<Expr>>,
}

/// One property of an object pattern.
#[derive(Debug, PartialEq, Eq)]
pub enum ObjectPatProp {
    KeyValue(KeyValuePatProp),
    Assign(AssignPatProp),
    Rest(RestPat),
}

/// What stands where no pattern could be read.
#[derive(Clone, Copy, Debug, PartialEq, Eq, Structural)]
pub struct Invalid {
    pub span: Span,
}

/// A binding pattern.
#[derive(Debug, PartialEq, Eq)]
pub enum Pat {
    Ident(BindingIdent),
    Array(ArrayPat),
    Rest(RestPat),
    Object(ObjectPat),
    Assign(AssignPat),
    Invalid(Invalid),
    /// An expression in pattern position.
    Expr(Box<Expr>),
}

/// A parameter of a function type or of a signature.
#[derive(Debug, PartialEq, Eq)]
pub enum TsFnParam {
    Ident(BindingIdent),
    Array(ArrayPat),
    Rest(RestPat),
    Object(ObjectPat),
}

/// A call signature: `(params): T`.
#[derive(Debug, PartialEq, Eq)]
pub struct TsCallSignatureDecl {
    pub span: Span,
    pub params: List<TsFnParam>,
    pub type_ann: Option<TsTypeAnn>,
    pub type_params: Option<TsTypeParamDecl>,
}

/// A construct signature: `new (params): T`.
#[derive(Debug, PartialEq, Eq)]
pub struct TsConstructSignatureDecl {
    pub span: Span,
    pub params: List<TsFnParam>,
    pub type_ann: Option<TsTypeAnn>,
    pub type_params: Option<TsTypeParamDecl>,
}

/// A property signature: `key: T`.
#[derive(Debug, PartialEq, Eq)]
pub struct TsPropertySignature {
    pub span: Span,
    pub readonly: bool,
    pub key: Box<Expr>,
    pub computed: bool,
    pub optional: bool,
    pub init: Option<Box<Expr>>,
    pub params: List<TsFnParam>,
    pub type_ann: Option<TsTypeAnn>,
    pub type_params: Option<TsTypeParamDecl>,
}

/// A method signature: `key(params): T`.
#[derive(Debug, PartialEq, Eq)]
pub struct TsMethodSignature {
    pub span: Span,
    pub readonly: bool,
    pub key: Box<Expr>,
    pub computed: bool,
    pub optional: bool,
    pub params: List<TsFnParam>,
    pub type_ann: Option<TsTypeAnn>,
    pub type_params: Option<TsTypeParamDecl>,
}

/// An index signature: `[key: K]: T`.
#[derive(Debug, PartialEq, Eq)]
pub struct TsIndexSignature {
    pub params: List<TsFnParam>,
    pub type_ann: Option<TsTypeAnn>,
    pub readonly: bool,
    pub span: Span,
}

/// A member of a type literal or of an interface body.
#[derive(Debug, PartialEq, Eq)]
pub enum TsTypeElement {
    TsCallSignatureDecl(TsCallSignatureDecl),
    TsConstructSignatureDecl(TsConstructSignatureDecl),
    TsPropertySignature(TsPropertySignature),
    TsMethodSignature(TsMethodSignature),
    TsIndexSignature(TsIndexSignature),
}

/// A function type: `(params) => T`.
#[derive(Debug, PartialEq, Eq)]
pub struct TsFnType {
    pub span: Span,
    pub params: List<TsFnParam>,
    pub type_params: Option<TsTypeParamDecl>,
    pub type_ann: TsTypeAnn,
}

/// A constructor type: `new (params) => T`.
#[derive(Debug, PartialEq, Eq)]
pub struct TsConstructorType {
    pub span: Span,
    pub params: List<TsFnParam>,
    pub type_params: Option<TsTypeParamDecl>,
    pub type_ann: TsTypeAnn,
}

/// A function type or a constructor type.
#[derive(Debug, PartialEq, Eq)]
pub enum TsFnOrConstructorType {
    TsFnType(TsFnType),
    TsConstructorType(TsConstructorType),
}

/// A reference to a named type: `Name<Args>`.
#[derive(Debug, PartialEq, Eq)]
pub struct TsTypeRef {
    pub span: Span,
    pub name: TsEntityName,
    pub type_params: Option<TsTypeParamInstantiation>,
}

/// A type predicate: `x is T` or `asserts x`.
#[derive(Debug, PartialEq, Eq)]
pub struct TsTypePredicate {
    pub span: Span,
    pub asserts: bool,
    pub param_name: TsThisTypeOrIdent,
    pub type_ann: Option<TsTypeAnn>,
}

/// An import type: `import("module").Name<Args>`.
#[derive(Debug, PartialEq, Eq)]
pub struct TsImportType {
    pub span: Span,
    pub arg: Str,
    pub qualifier: Option<TsEntityName>,
    pub type_args: Option<TsTypeParamInstantiation>,
}

/// What a type query asks the type of.
#[derive(Debug, PartialEq, Eq)]
pub enum TsTypeQueryExpr {
    TsEntityName(TsEntityName),
    Import(TsImportType),
}

/// A type query: `typeof name`.
#[derive(Debug, PartialEq, Eq)]
pub struct TsTypeQuery {
    pub span: Span,
    pub expr_name: TsTypeQueryExpr,
}

/// A type literal: `{ members }`.
#[derive(Debug, PartialEq, Eq)]
pub struct TsTypeLit {
    pub span: Span,
    pub members: List<TsTypeElement>,
}

/// An array type: `T[]`.
#[derive(Debug, PartialEq, Eq)]
pub struct TsArrayType {
    pub span: Span,
    pub elem_type: Box<TsType>,
}

/// One element of a tuple type, with its label if it has one.
#[derive(Debug, PartialEq, Eq)]
pub struct TsTupleElement {
    pub span: Span,
    pub label: Option<Ident>,
    pub ty: TsType,
}

/// A tuple type: `[A, B]`.
#[derive(Debug, PartialEq, Eq)]
pub struct TsTupleType {
    pub span: Span,
    pub elem_types: List<TsTupleElement>,
}

/// An optional type in a tuple: `T?`.
#[derive(Debug, PartialEq, Eq)]
pub struct TsOptionalType {
    pub span: Span,
    pub type_ann: Box<TsType>,
}

/// A rest type in a tuple: `...T`.
#[derive(Debug, PartialEq, Eq)]
pub struct TsRestType {
    pub span: Span,
    pub type_ann: Box<TsType>,
}

/// A union type: `A | B`.
#[derive(Debug, PartialEq, Eq)]
pub struct TsUnionType {
    pub span: Span,
    pub types: List<TsType>,
}

/// An intersection type: `A & B`.
#[derive(Debug, PartialEq, Eq)]
pub struct TsIntersectionType {
    pub span: Span,
    pub types: List<TsType>,
}

/// A union type or an intersection type.
#[derive(Debug, PartialEq, Eq)]
pub enum TsUnionOrIntersectionType {
    TsUnionType(TsUnionType),
    TsIntersectionType(TsIntersectionType),
}

/// A conditional type: `C extends E ? T : F`.
#[derive(Debug, PartialEq, Eq)]
pub struct TsConditionalType {
    pub span: Span,
    pub check_type: Box<TsType>,
    pub extends_type: Box<TsType>,
    pub true_type: Box<TsType>,
    pub false_type: Box<TsType>,
}

/// An inference position: `infer T`.
#[derive(Debug, PartialEq, Eq)]
pub struct TsInferType {
    pub span: Span,
    pub type_param: TsTypeParam,
}

/// A type in parentheses.
#[derive(Debug, PartialEq, Eq)]
pub struct TsParenthesizedType {
    pub span: Span,
    pub type_ann: Box<TsType>,
}

/// A type operator applied to a type: `keyof T`.
#[derive(Debug, PartialEq, Eq)]
pub struct TsTypeOperator {
    pub span: Span,
    pub op: TsTypeOperatorOp,
    pub type_ann: Box<TsType>,
}

/// An indexed access type: `O[I]`.
#[derive(Debug, PartialEq, Eq)]
pub struct TsIndexedAccessType {
    pub span: Span,
    pub readonly: bool,
    pub obj_type: Box<TsType>,
    pub index_type: Box<TsType>,
}

/// A mapped type: `{ [K in C]: T }`.
#[derive(Debug, PartialEq, Eq)]
pub struct TsMappedType {
    pub span: Span,
    pub readonly: Option<TruePlusMinus>,
    pub type_param: TsTypeParam,
    pub optional: Option<TruePlusMinus>,
    pub type_ann: Option<Box<TsType>>,
}

/// A type as written in the source.
#[derive(Debug, PartialEq, Eq)]
pub enum TsType {
    TsKeywordType(TsKeywordType),
    TsThisType(TsThisType),
    TsFnOrConstructorType(TsFnOrConstructorType),
    TsTypeRef(TsTypeRef),
    TsTypeQuery(TsTypeQuery),
    TsTypeLit(TsTypeLit),
    TsArrayType(TsArrayType),
    TsTupleType(TsTupleType),
    TsOptionalType(TsOptionalType),
    TsRestType(TsRestType),
    TsUnionOrIntersectionType(TsUnionOrIntersectionType),
    TsConditionalType(TsConditionalType),
    TsInferType(TsInferType),
    TsParenthesizedType(TsParenthesizedType),
    TsTypeOperator(TsTypeOperator),
    TsIndexedAccessType(TsIndexedAccessType),
    TsMappedType(TsMappedType),
    TsLitType(TsLitType),
    TsTypePredicate(TsTypePredicate),
    TsImportType(TsImportType),
}

/// A parent of an interface: `Name<Args>` after `extends`.
#[derive(Debug, PartialEq, Eq)]
pub struct TsExprWithTypeArgs {
    pub span: Span,
    pub expr: TsEntityName,
    pub type_args: Option<TsTypeParamInstantiation>,
}

/// The body of an interface.
#[derive(Debug, PartialEq, Eq)]
pub struct TsInterfaceBody {
    pub span: Span,
    pub body: List<TsTypeElement>,
}

/// An interface declaration.
#[derive(Debug, PartialEq, Eq)]
pub struct TsInterfaceDecl {
    pub span: Span,
    pub id: Ident,
    pub type_params: Option<TsTypeParamDecl>,
    pub extends: List<TsExprWithTypeArgs>,
    pub body: TsInterfaceBody,
}

/// A type alias declaration: `type Name<Params> = T`.
#[derive(Debug, PartialEq, Eq)]
pub struct TsTypeAliasDecl {
    pub span: Span,
    pub id: Ident,
    pub type_params: Option<TsTypeParamDecl>,
    pub type_ann: Box<TsType>,
}

impl TsLit {
    /// Whether two literals agree in everything but their positions.
    pub open spec fn alike(self, other: TsLit) -> bool {
        match (self, other) {
            (TsLit::Number(a), TsLit::Number(b)) => a.bits == b.bits,
            (TsLit::Str(a), TsLit::Str(b)) => a.alike(b),
            (TsLit::Bool(a), TsLit::Bool(b)) => a.value == b.value,
            (TsLit::BigInt(a), TsLit::BigInt(b)) => a.alike(b),
            (TsLit::Tpl(a), TsLit::Tpl(b)) => a.handle == b.handle,
            _ => false,
        }
    }

    /// Compares two literals, positions aside.
    pub fn eq_ignore_span(&self, other: &TsLit) -> (b: bool)
        ensures
            b == self.alike(*other),
    {
        match (self, other) {
            (TsLit::Number(a), TsLit::Number(b)) => a.bits == b.bits,
            (TsLit::Str(a), TsLit::Str(b)) => a.eq_ignore_span(b),
            (TsLit::Bool(a), TsLit::Bool(b)) => a.value == b.value,
            (TsLit::BigInt(a), TsLit::BigInt(b)) => a.eq_ignore_span(b),
            (TsLit::Tpl(a), TsLit::Tpl(b)) => a.handle == b.handle,
            _ => false,
        }
    }
}

impl Clone for TsLit {
    fn clone(&self) -> (r: Self)
        ensures
            r == *self,
    {
        match self {
            TsLit::Number(n) => TsLit::Number(*n),
            TsLit::Str(s) => TsLit::Str(s.clone()),
            TsLit::Bool(b) => TsLit::Bool(*b),
            TsLit::BigInt(b) => TsLit::BigInt(b.clone()),
            TsLit::Tpl(t) => TsLit::Tpl(*t),
        }
    }
}

impl Clone for TsLitType {
    fn clone(&self) -> (r: Self)
        ensures
            r == *self,
    {
        TsLitType { span: self.span, lit: self.lit.clone() }
    }
}

impl TsThisTypeOrIdent {
    /// Whether both speak of `this`, or of parameters of the same name.
    pub open spec fn alike(self, other: TsThisTypeOrIdent) -> bool {
        match (self, other) {
            (TsThisTypeOrIdent::TsThisType(_), TsThisTypeOrIdent::TsThisType(_)) => true,
            (TsThisTypeOrIdent::Ident(a), TsThisTypeOrIdent::Ident(b)) => a.alike(b),
            _ => false,
        }
    }

    /// Compares the two, positions aside.
    pub fn eq_ignore_span(&self, other: &TsThisTypeOrIdent) -> (b: bool)
        ensures
            b == self.alike(*other),
    {
        match (self, other) {
            (TsThisTypeOrIdent::TsThisType(_), TsThisTypeOrIdent::TsThisType(_)) => true,
            (TsThisTypeOrIdent::Ident(a), TsThisTypeOrIdent::Ident(b)) => a.eq_ignore_span(b),
            _ => false,
        }
    }
}

impl Clone for TsThisTypeOrIdent {
    fn clone(&self) -> (r: Self)
        ensures
            r == *self,
    {
        match self {
            TsThisTypeOrIdent::TsThisType(t) => TsThisTypeOrIdent::TsThisType(*t),
            TsThisTypeOrIdent::Ident(i) => TsThisTypeOrIdent::Ident(i.clone()),
        }
    }
}

/// The annotation `any` at `span`.
pub open spec fn any_keyword(span: Span) -> TsType {
    TsType::TsKeywordType(TsKeywordType { span, kind: TsKeywordTypeKind::TsAnyKeyword })
}

} // verus!
