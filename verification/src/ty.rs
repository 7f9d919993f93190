//! The semantic types that lowering produces.

use vstd::prelude::*;
use crate::ast::{
    TruePlusMinus, TsKeywordType, TsKeywordTypeKind, TsLitType, TsThisType, TsThisTypeOrIdent,
    TsTypeOperatorOp,
};
use crate::expr::{Expr, Str, TsEntityName};
use crate::ident::{Id, Ident};
use crate::list::List;
use crate::span::{Mark, Span};

verus! {

/// A type parameter as declared: its name, and the constraint and default
/// that were lowered for it.
#[derive(Debug, PartialEq, Eq)]
pub struct TypeParam {
    pub span: Span,
    pub name: Id,
    pub constraint: Option<Box<Type>>,
    pub default: Option<Box<Type>>,
}

/// The type parameters of a declaration, in declaration order.
#[derive(Debug, PartialEq, Eq)]
pub struct TypeParamDecl {
    pub span: Span,
    pub params: List<TypeParam>,
}

/// The type arguments of a reference, in the order written.
#[derive(Debug, PartialEq, Eq)]
pub struct TypeParamInstantiation {
    pub span: Span,
    pub params: List<Type>,
}

/// A use of a type parameter. `slot` says which placeholder of the registry
/// it is: two uses are the same placeholder exactly when their slots agree.
#[derive(Debug, PartialEq, Eq)]
pub struct Placeholder {
    pub span: Span,
    pub name: Id,
    pub slot: u64,
}

/// How a parameter binds its argument.
#[derive(Debug, PartialEq, Eq)]
pub enum ParamPat {
    Ident(Ident),
    Array,
    Rest,
    Object,
}

/// A parameter of a function, constructor or signature.
#[derive(Debug, PartialEq, Eq)]
pub struct FnParam {
    pub span: Span,
    pub required: bool,
    pub pat: ParamPat,
    pub ty: Box<Type>,
}

/// A call signature of a type literal or of an interface.
#[derive(Debug, PartialEq, Eq)]
pub struct CallSignature {
    pub span: Span,
    pub params: List<FnParam>,
    pub type_params: Option<TypeParamDecl>,
    pub ret_ty: Option<Box<Type>>,
}

/// A construct signature of a type literal or of an interface.
#[derive(Debug, PartialEq, Eq)]
pub struct ConstructorSignature {
    pub span: Span,
    pub params: List<FnParam>,
    pub type_params: Option<TypeParamDecl>,
    pub ret_ty: Option<Box<Type>>,
}

/// A property of a type literal or of an interface.
#[derive(Debug, PartialEq, Eq)]
pub struct PropertySignature {
    pub span: Span,
    pub readonly: bool,
    pub key: Box<Expr>,
    pub computed: bool,
    pub optional: bool,
    pub params: List<FnParam>,
    pub type_ann: Option<Box<Type>>,
    pub type_params: Option<TypeParamDecl>,
}

/// A method of a type literal or of an interface.
#[derive(Debug, PartialEq, Eq)]
pub struct MethodSignature {
    pub span: Span,
    pub readonly: bool,
    pub key: Box<Expr>,
    pub computed: bool,
    pub optional: bool,
    pub params: List<FnParam>,
    pub ret_ty: Option<Box<Type>>,
    pub type_params: Option<TypeParamDecl>,
}

/// An index signature of a type literal or of an interface.
#[derive(Debug, PartialEq, Eq)]
pub struct IndexSignature {
    pub span: Span,
    pub params: List<FnParam>,
    pub type_ann: Option<Box<Type>>,
    pub readonly: bool,
}

/// A member of a type literal or of an interface.
#[derive(Debug, PartialEq, Eq)]
pub enum TypeElement {
    Call(CallSignature),
    Constructor(ConstructorSignature),
    Property(PropertySignature),
    Method(MethodSignature),
    Index(IndexSignature),
}

/// A parent named in an `extends` clause.
#[derive(Debug, PartialEq, Eq)]
pub struct TsExpr {
    pub span: Span,
    pub expr: TsEntityName,
    pub type_args: Option<TypeParamInstantiation>,
}

/// An interface: its name, type parameters, parents and members.
#[derive(Debug, PartialEq, Eq)]
pub struct Interface {
    pub span: Span,
    pub name: Id,
    pub type_params: Option<TypeParamDecl>,
    pub extends: List<TsExpr>,
    pub body: List<TypeElement>,
}

/// A type alias: its type parameters and the type that it stands for.
#[derive(Debug, PartialEq, Eq)]
pub struct Alias {
    pub span: Span,
    pub type_params: Option<TypeParamDecl>,
    pub ty: Box<Type>,
}

/// A type literal: its members, in order.
#[derive(Debug, PartialEq, Eq)]
pub struct TypeLit {
    pub span: Span,
    pub members: List<TypeElement>,
}

/// An array of elements of one type.
#[derive(Debug, PartialEq, Eq)]
pub struct Array {
    pub span: Span,
    pub elem_type: Box<Type>,
}

/// One element of a tuple.
#[derive(Debug, PartialEq, Eq)]
pub struct TupleElement {
    pub span: Span,
    pub label: Option<Ident>,
    pub ty: Type,
}

/// A tuple: its elements, in order.
#[derive(Debug, PartialEq, Eq)]
pub struct Tuple {
    pub span: Span,
    pub elems: List<TupleElement>,
}

/// A union: its members, in order. A member may occur twice.
#[derive(Debug, PartialEq, Eq)]
pub struct Union {
    pub span: Span,
    pub types: List<Type>,
}

/// An intersection: its members, in order.
#[derive(Debug, PartialEq, Eq)]
pub struct Intersection {
    pub span: Span,
    pub types: List<Type>,
}

/// A function type.
#[derive(Debug, PartialEq, Eq)]
pub struct Function {
    pub span: Span,
    pub type_params: Option<TypeParamDecl>,
    pub params: List<FnParam>,
    pub ret_ty: Box<Type>,
}

/// A constructor type.
#[derive(Debug, PartialEq, Eq)]
pub struct Constructor {
    pub span: Span,
    pub type_params: Option<TypeParamDecl>,
    pub params: List<FnParam>,
    pub type_ann: Box<Type>,
}

/// A conditional type: `check extends extends_type ? true_type : false_type`.
#[derive(Debug, PartialEq, Eq)]
pub struct Conditional {
    pub span: Span,
    pub check_type: Box<Type>,
    pub extends_type: Box<Type>,
    pub true_type: Box<Type>,
    pub false_type: Box<Type>,
}

/// A mapped type.
#[derive(Debug, PartialEq, Eq)]
pub struct Mapped {
    pub span: Span,
    pub readonly: Option<TruePlusMinus>,
    pub optional: Option<TruePlusMinus>,
    pub type_param: TypeParam,
    pub ty: Option<Box<Type>>,
}

/// A type operator applied to a type.
#[derive(Debug, PartialEq, Eq)]
pub struct Operator {
    pub span: Span,
    pub op: TsTypeOperatorOp,
    pub ty: Box<Type>,
}

/// The type of something in another module.
#[derive(Debug, PartialEq, Eq)]
pub struct ImportType {
    pub span: Span,
    pub arg: Str,
    pub qualifier: Option<TsEntityName>,
    pub type_params: Option<TypeParamInstantiation>,
}

/// What a type query asks the type of.
#[derive(Debug, PartialEq, Eq)]
pub enum QueryExpr {
    TsEntityName(TsEntityName),
    Import(ImportType),
}

/// The type of a value, asked for by name.
#[derive(Debug, PartialEq, Eq)]
pub struct QueryType {
    pub span: Span,
    pub expr: QueryExpr,
}

/// The type of a member of a type, by its key type.
#[derive(Debug, PartialEq, Eq)]
pub struct IndexedAccessType {
    pub span: Span,
    pub readonly: bool,
    pub obj_type: Box<Type>,
    pub index_type: Box<Type>,
}

/// A type predicate.
#[derive(Debug, PartialEq, Eq)]
pub struct Predicate {
    pub span: Span,
    pub param_name: TsThisTypeOrIdent,
    pub asserts: bool,
    pub ty: Option<Box<Type>>,
}

/// An inference position.
#[derive(Debug, PartialEq, Eq)]
pub struct InferType {
    pub span: Span,
    pub type_param: TypeParam,
}

/// A named reference that no scope has resolved yet.
#[derive(Debug, PartialEq, Eq)]
pub struct Ref {
    pub span: Span,
    pub name: TsEntityName,
    pub type_args: Option<TypeParamInstantiation>,
}

/// The rest of a tuple.
#[derive(Debug, PartialEq, Eq)]
pub struct RestType {
    pub span: Span,
    pub ty: Box<Type>,
}

/// An element of a tuple that may be missing.
#[derive(Debug, PartialEq, Eq)]
pub struct OptionalType {
    pub span: Span,
    pub ty: Box<Type>,
}

/// A semantic type.
#[derive(Debug, PartialEq, Eq)]
pub enum Type {
    This(TsThisType),
    Lit(TsLitType),
    Query(QueryType),
    Infer(InferType),
    Import(ImportType),
    Predicate(Predicate),
    IndexedAccessType(IndexedAccessType),
    Ref(Ref),
    TypeLit(TypeLit),
    Keyword(TsKeywordType),
    Conditional(Conditional),
    Tuple(Tuple),
    Array(Array),
    Union(Union),
    Intersection(Intersection),
    Function(Function),
    Constructor(Constructor),
    Operator(Operator),
    Param(Placeholder),
    Interface(Interface),
    Alias(Alias),
    Mapped(Mapped),
    Rest(RestType),
    Optional(OptionalType),
}

/// The type `any` at `span`.
pub open spec fn any_type(span: Span) -> Type {
    Type::Keyword(TsKeywordType { span, kind: TsKeywordTypeKind::TsAnyKeyword })
}

impl Type {
    /// The span of the outermost node.
    pub open spec fn span_of(self) -> Span {
        match self {
            Type::This(t) => t.span,
            Type::Lit(t) => t.span,
            Type::Query(t) => t.span,
            Type::Infer(t) => t.span,
            Type::Import(t) => t.span,
            Type::Predicate(t) => t.span,
            Type::IndexedAccessType(t) => t.span,
            Type::Ref(t) => t.span,
            Type::TypeLit(t) => t.span,
            Type::Keyword(t) => t.span,
            Type::Conditional(t) => t.span,
            Type::Tuple(t) => t.span,
            Type::Array(t) => t.span,
            Type::Union(t) => t.span,
            Type::Intersection(t) => t.span,
            Type::Function(t) => t.span,
            Type::Constructor(t) => t.span,
            Type::Operator(t) => t.span,
            Type::Param(t) => t.span,
            Type::Interface(t) => t.span,
            Type::Alias(t) => t.span,
            Type::Mapped(t) => t.span,
            Type::Rest(t) => t.span,
            Type::Optional(t) => t.span,
        }
    }

    /// This type with the span of its outermost node replaced by `span`.
    pub open spec fn with_span(self, span: Span) -> Type {
        match self {
            Type::This(t) => Type::This(TsThisType { span }),
            Type::Lit(t) => Type::Lit(TsLitType { span, ..t }),
            Type::Query(t) => Type::Query(QueryType { span, ..t }),
            Type::Infer(t) => Type::Infer(InferType { span, ..t }),
            Type::Import(t) => Type::Import(ImportType { span, ..t }),
            Type::Predicate(t) => Type::Predicate(Predicate { span, ..t }),
            Type::IndexedAccessType(t) => Type::IndexedAccessType(IndexedAccessType { span, ..t }),
            Type::Ref(t) => Type::Ref(Ref { span, ..t }),
            Type::TypeLit(t) => Type::TypeLit(TypeLit { span, ..t }),
            Type::Keyword(t) => Type::Keyword(TsKeywordType { span, ..t }),
            Type::Conditional(t) => Type::Conditional(Conditional { span, ..t }),
            Type::Tuple(t) => Type::Tuple(Tuple { span, ..t }),
            Type::Array(t) => Type::Array(Array { span, ..t }),
            Type::Union(t) => Type::Union(Union { span, ..t }),
            Type::Intersection(t) => Type::Intersection(Intersection { span, ..t }),
            Type::Function(t) => Type::Function(Function { span, ..t }),
            Type::Constructor(t) => Type::Constructor(Constructor { span, ..t }),
            Type::Operator(t) => Type::Operator(Operator { span, ..t }),
            Type::Param(t) => Type::Param(Placeholder { span, ..t }),
            Type::Interface(t) => Type::Interface(Interface { span, ..t }),
            Type::Alias(t) => Type::Alias(Alias { span, ..t }),
            Type::Mapped(t) => Type::Mapped(Mapped { span, ..t }),
            Type::Rest(t) => Type::Rest(RestType { span, ..t }),
            Type::Optional(t) => Type::Optional(OptionalType { span, ..t }),
        }
    }

    /// This type with `mark` added to the span of its outermost node.
    pub open spec fn marked(self, mark: Mark) -> Type {
        self.with_span(self.span_of().marked(mark))
    }

    /// The type `any` at `span`.
    pub fn any(span: Span) -> (t: Type)
        ensures
            t == any_type(span),
    {
        Type::Keyword(TsKeywordType { span, kind: TsKeywordTypeKind::TsAnyKeyword })
    }

    /// The span of the outermost node.
    pub fn span(&self) -> (s: Span)
        ensures
            s == self.span_of(),
    {
        match self {
            Type::This(t) => t.span,
            Type::Lit(t) => t.span,
            Type::Query(t) => t.span,
            Type::Infer(t) => t.span,
            Type::Import(t) => t.span,
            Type::Predicate(t) => t.span,
            Type::IndexedAccessType(t) => t.span,
            Type::Ref(t) => t.span,
            Type::TypeLit(t) => t.span,
            Type::Keyword(t) => t.span,
            Type::Conditional(t) => t.span,
            Type::Tuple(t) => t.span,
            Type::Array(t) => t.span,
            Type::Union(t) => t.span,
            Type::Intersection(t) => t.span,
            Type::Function(t) => t.span,
            Type::Constructor(t) => t.span,
            Type::Operator(t) => t.span,
            Type::Param(t) => t.span,
            Type::Interface(t) => t.span,
            Type::Alias(t) => t.span,
            Type::Mapped(t) => t.span,
            Type::Rest(t) => t.span,
            Type::Optional(t) => t.span,
        }
    }

    /// Adds `mark` to the span of the outermost node; nothing else changes.
    pub fn apply_mark(&mut self, mark: Mark)
        ensures
            *final(self) == old(self).marked(mark),
    {
        match self {
            Type::This(t) => { t.span = t.span.apply_mark(mark); },
            Type::Lit(t) => { t.span = t.span.apply_mark(mark); },
            Type::Query(t) => { t.span = t.span.apply_mark(mark); },
            Type::Infer(t) => { t.span = t.span.apply_mark(mark); },
            Type::Import(t) => { t.span = t.span.apply_mark(mark); },
            Type::Predicate(t) => { t.span = t.span.apply_mark(mark); },
            Type::IndexedAccessType(t) => { t.span = t.span.apply_mark(mark); },
            Type::Ref(t) => { t.span = t.span.apply_mark(mark); },
            Type::TypeLit(t) => { t.span = t.span.apply_mark(mark); },
            Type::Keyword(t) => { t.span = t.span.apply_mark(mark); },
            Type::Conditional(t) => { t.span = t.span.apply_mark(mark); },
            Type::Tuple(t) => { t.span = t.span.apply_mark(mark); },
            Type::Array(t) => { t.span = t.span.apply_mark(mark); },
            Type::Union(t) => { t.span = t.span.apply_mark(mark); },
            Type::Intersection(t) => { t.span = t.span.apply_mark(mark); },
            Type::Function(t) => { t.span = t.span.apply_mark(mark); },
            Type::Constructor(t) => { t.span = t.span.apply_mark(mark); },
            Type::Operator(t) => { t.span = t.span.apply_mark(mark); },
            Type::Param(t) => { t.span = t.span.apply_mark(mark); },
            Type::Interface(t) => { t.span = t.span.apply_mark(mark); },
            Type::Alias(t) => { t.span = t.span.apply_mark(mark); },
            Type::Mapped(t) => { t.span = t.span.apply_mark(mark); },
            Type::Rest(t) => { t.span = t.span.apply_mark(mark); },
            Type::Optional(t) => { t.span = t.span.apply_mark(mark); },
        }
    }
}

impl Clone for Placeholder {
    fn clone(&self) -> (r: Self)
        ensures
            r == *self,
    {
        Placeholder { span: self.span, name: self.name.clone(), slot: self.slot }
    }
}

impl Clone for ParamPat {
    fn clone(&self) -> (r: Self)
        ensures
            r == *self,
    {
        match self {
            ParamPat::Ident(i) => ParamPat::Ident(i.clone()),
            ParamPat::Array => ParamPat::Array,
            ParamPat::Rest => ParamPat::Rest,
            ParamPat::Object => ParamPat::Object,
        }
    }
}

fn clone_opt_ident(o: &Option<Ident>) -> (r: Option<Ident>)
    ensures
        r == *o,
{
    match o {
        Some(i) => Some(i.clone()),
        None => None,
    }
}

fn clone_opt_name(o: &Option<TsEntityName>) -> (r: Option<TsEntityName>)
    ensures
        r == *o,
{
    match o {
        Some(n) => Some(n.clone()),
        None => None,
    }
}

fn clone_opt_type(o: &Option<Box<Type>>) -> (r: Option<Box<Type>>)
    ensures
        r == *o,
    decreases *o,
{
    match o {
        Some(t) => Some(Box::new((**t).clone())),
        None => None,
    }
}

fn clone_types(l: &List<Type>) -> (r: List<Type>)
    ensures
        r == *l,
    decreases *l,
{
    match l {
        List::Nil => List::Nil,
        List::Cons(head, tail) => List::Cons(
            Box::new((**head).clone()),
            Box::new(clone_types(tail)),
        ),
    }
}

fn clone_params(l: &List<TypeParam>) -> (r: List<TypeParam>)
    ensures
        r == *l,
    decreases *l,
{
    match l {
        List::Nil => List::Nil,
        List::Cons(head, tail) => List::Cons(
            Box::new((**head).clone()),
            Box::new(clone_params(tail)),
        ),
    }
}

fn clone_opt_decl(o: &Option<TypeParamDecl>) -> (r: Option<TypeParamDecl>)
    ensures
        r == *o,
    decreases *o,
{
    match o {
        Some(d) => Some(TypeParamDecl { span: d.span, params: clone_params(&d.params) }),
        None => None,
    }
}

fn clone_inst(o: &Option<TypeParamInstantiation>) -> (r: Option<TypeParamInstantiation>)
    ensures
        r == *o,
    decreases *o,
{
    match o {
        Some(i) => Some(TypeParamInstantiation { span: i.span, params: clone_types(&i.params) }),
        None => None,
    }
}

fn clone_fn_params(l: &List<FnParam>) -> (r: List<FnParam>)
    ensures
        r == *l,
    decreases *l,
{
    match l {
        List::Nil => List::Nil,
        List::Cons(head, tail) => List::Cons(
            Box::new(
                FnParam {
                    span: head.span,
                    required: head.required,
                    pat: head.pat.clone(),
                    ty: Box::new((*head.ty).clone()),
                },
            ),
            Box::new(clone_fn_params(tail)),
        ),
    }
}

fn clone_tuple_elems(l: &List<TupleElement>) -> (r: List<TupleElement>)
    ensures
        r == *l,
    decreases *l,
{
    match l {
        List::Nil => List::Nil,
        List::Cons(head, tail) => List::Cons(
            Box::new(
                TupleElement {
                    span: head.span,
                    label: clone_opt_ident(&head.label),
                    ty: head.ty.clone(),
                },
            ),
            Box::new(clone_tuple_elems(tail)),
        ),
    }
}

fn clone_ts_exprs(l: &List<TsExpr>) -> (r: List<TsExpr>)
    ensures
        r == *l,
    decreases *l,
{
    match l {
        List::Nil => List::Nil,
        List::Cons(head, tail) => List::Cons(
            Box::new(
                TsExpr {
                    span: head.span,
                    expr: head.expr.clone(),
                    type_args: clone_inst(&head.type_args),
                },
            ),
            Box::new(clone_ts_exprs(tail)),
        ),
    }
}

fn clone_import(i: &ImportType) -> (r: ImportType)
    ensures
        r == *i,
    decreases *i,
{
    ImportType {
        span: i.span,
        arg: i.arg.clone(),
        qualifier: clone_opt_name(&i.qualifier),
        type_params: clone_inst(&i.type_params),
    }
}

fn clone_element(e: &TypeElement) -> (r: TypeElement)
    ensures
        r == *e,
    decreases *e,
{
    match e {
        TypeElement::Call(c) => TypeElement::Call(
            CallSignature {
                span: c.span,
                params: clone_fn_params(&c.params),
                type_params: clone_opt_decl(&c.type_params),
                ret_ty: clone_opt_type(&c.ret_ty),
            },
        ),
        TypeElement::Constructor(c) => TypeElement::Constructor(
            ConstructorSignature {
                span: c.span,
                params: clone_fn_params(&c.params),
                type_params: clone_opt_decl(&c.type_params),
                ret_ty: clone_opt_type(&c.ret_ty),
            },
        ),
        TypeElement::Property(p) => TypeElement::Property(
            PropertySignature {
                span: p.span,
                readonly: p.readonly,
                key: Box::new((*p.key).clone()),
                computed: p.computed,
                optional: p.optional,
                params: clone_fn_params(&p.params),
                type_ann: clone_opt_type(&p.type_ann),
                type_params: clone_opt_decl(&p.type_params),
            },
        ),
        TypeElement::Method(m) => TypeElement::Method(
            MethodSignature {
                span: m.span,
                readonly: m.readonly,
                key: Box::new((*m.key).clone()),
                computed: m.computed,
                optional: m.optional,
                params: clone_fn_params(&m.params),
                ret_ty: clone_opt_type(&m.ret_ty),
                type_params: clone_opt_decl(&m.type_params),
            },
        ),
        TypeElement::Index(i) => TypeElement::Index(
            IndexSignature {
                span: i.span,
                params: clone_fn_params(&i.params),
                type_ann: clone_opt_type(&i.type_ann),
                readonly: i.readonly,
            },
        ),
    }
}

fn clone_elements(l: &List<TypeElement>) -> (r: List<TypeElement>)
    ensures
        r == *l,
    decreases *l,
{
    match l {
        List::Nil => List::Nil,
        List::Cons(head, tail) => List::Cons(
            Box::new(clone_element(head)),
            Box::new(clone_elements(tail)),
        ),
    }
}

impl Clone for TypeParam {
    fn clone(&self) -> (r: Self)
        ensures
            r == *self,
        decreases *self,
    {
        TypeParam {
            span: self.span,
            name: self.name.clone(),
            constraint: clone_opt_type(&self.constraint),
            default: clone_opt_type(&self.default),
        }
    }
}

impl Clone for Interface {
    fn clone(&self) -> (r: Self)
        ensures
            r == *self,
        decreases *self,
    {
        Interface {
            span: self.span,
            name: self.name.clone(),
            type_params: clone_opt_decl(&self.type_params),
            extends: clone_ts_exprs(&self.extends),
            body: clone_elements(&self.body),
        }
    }
}

impl Clone for Alias {
    fn clone(&self) -> (r: Self)
        ensures
            r == *self,
        decreases *self,
    {
        Alias {
            span: self.span,
            type_params: clone_opt_decl(&self.type_params),
            ty: Box::new((*self.ty).clone()),
        }
    }
}

impl Clone for Type {
    fn clone(&self) -> (r: Self)
        ensures
            r == *self,
        decreases *self,
    {
        match self {
            Type::This(t) => Type::This(*t),
            Type::Lit(t) => Type::Lit(t.clone()),
            Type::Query(t) => Type::Query(
                QueryType {
                    span: t.span,
                    expr: match &t.expr {
                        QueryExpr::TsEntityName(n) => QueryExpr::TsEntityName(n.clone()),
                        QueryExpr::Import(i) => QueryExpr::Import(clone_import(i)),
                    },
                },
            ),
            Type::Infer(t) => Type::Infer(
                InferType { span: t.span, type_param: t.type_param.clone() },
            ),
            Type::Import(t) => Type::Import(clone_import(t)),
            Type::Predicate(t) => Type::Predicate(
                Predicate {
                    span: t.span,
                    param_name: t.param_name.clone(),
                    asserts: t.asserts,
                    ty: clone_opt_type(&t.ty),
                },
            ),
            Type::IndexedAccessType(t) => Type::IndexedAccessType(
                IndexedAccessType {
                    span: t.span,
                    readonly: t.readonly,
                    obj_type: Box::new((*t.obj_type).clone()),
                    index_type: Box::new((*t.index_type).clone()),
                },
            ),
            Type::Ref(t) => Type::Ref(
                Ref { span: t.span, name: t.name.clone(), type_args: clone_inst(&t.type_args) },
            ),
            Type::TypeLit(t) => Type::TypeLit(
                TypeLit { span: t.span, members: clone_elements(&t.members) },
            ),
            Type::Keyword(t) => Type::Keyword(*t),
            Type::Conditional(t) => Type::Conditional(
                Conditional {
                    span: t.span,
                    check_type: Box::new((*t.check_type).clone()),
                    extends_type: Box::new((*t.extends_type).clone()),
                    true_type: Box::new((*t.true_type).clone()),
                    false_type: Box::new((*t.false_type).clone()),
                },
            ),
            Type::Tuple(t) => Type::Tuple(
                Tuple { span: t.span, elems: clone_tuple_elems(&t.elems) },
            ),
            Type::Array(t) => Type::Array(
                Array { span: t.span, elem_type: Box::new((*t.elem_type).clone()) },
            ),
            Type::Union(t) => Type::Union(Union { span: t.span, types: clone_types(&t.types) }),
            Type::Intersection(t) => Type::Intersection(
                Intersection { span: t.span, types: clone_types(&t.types) },
            ),
            Type::Function(t) => Type::Function(
                Function {
                    span: t.span,
                    type_params: clone_opt_decl(&t.type_params),
                    params: clone_fn_params(&t.params),
                    ret_ty: Box::new((*t.ret_ty).clone()),
                },
            ),
            Type::Constructor(t) => Type::Constructor(
                Constructor {
                    span: t.span,
                    type_params: clone_opt_decl(&t.type_params),
                    params: clone_fn_params(&t.params),
                    type_ann: Box::new((*t.type_ann).clone()),
                },
            ),
            Type::Operator(t) => Type::Operator(
                Operator { span: t.span, op: t.op, ty: Box::new((*t.ty).clone()) },
            ),
            Type::Param(t) => Type::Param(t.clone()),
            Type::Interface(t) => Type::Interface(t.clone()),
            Type::Alias(t) => Type::Alias(t.clone()),
            Type::Mapped(t) => Type::Mapped(
                Mapped {
                    span: t.span,
                    readonly: t.readonly,
                    optional: t.optional,
                    type_param: t.type_param.clone(),
                    ty: clone_opt_type(&t.ty),
                },
            ),
            Type::Rest(t) => Type::Rest(RestType { span: t.span, ty: Box::new((*t.ty).clone()) }),
            Type::Optional(t) => Type::Optional(
                OptionalType { span: t.span, ty: Box::new((*t.ty).clone()) },
            ),
        }
    }
}

} // verus!
