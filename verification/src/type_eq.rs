//! Structural identity of types.
//!
//! Two types are alike when they have the same shape and the same leaves,
//! whatever their spans and marks. Uses of type parameters are alike when
//! they are the same placeholder. The names of parameters and the labels of
//! tuple elements do not count.

use vstd::prelude::*;
use crate::list::List;
use crate::ty::{
    FnParam, ImportType, QueryExpr, TsExpr, TupleElement, Type, TypeElement, TypeParam,
    TypeParamDecl, TypeParamInstantiation,
};

verus! {

/// Whether `a` and `b` are structurally identical.
pub open spec fn type_alike(a: Type, b: Type) -> bool
    decreases a,
{
    match (a, b) {
        (Type::This(_), Type::This(_)) => true,
        (Type::Lit(x), Type::Lit(y)) => x.lit.alike(y.lit),
        (Type::Query(x), Type::Query(y)) => match (x.expr, y.expr) {
            (QueryExpr::TsEntityName(n), QueryExpr::TsEntityName(m)) => n.alike(m),
            (QueryExpr::Import(i), QueryExpr::Import(j)) => import_alike(i, j),
            _ => false,
        },
        (Type::Infer(x), Type::Infer(y)) => param_alike(x.type_param, y.type_param),
        (Type::Import(x), Type::Import(y)) => import_alike(x, y),
        (Type::Predicate(x), Type::Predicate(y)) => x.param_name.alike(y.param_name) && x.asserts
            == y.asserts && opt_type_alike(x.ty, y.ty),
        (Type::IndexedAccessType(x), Type::IndexedAccessType(y)) => x.readonly == y.readonly
            && type_alike(*x.obj_type, *y.obj_type) && type_alike(*x.index_type, *y.index_type),
        (Type::Ref(x), Type::Ref(y)) => x.name.alike(y.name) && inst_alike(
            x.type_args,
            y.type_args,
        ),
        (Type::TypeLit(x), Type::TypeLit(y)) => elements_alike(x.members, y.members),
        (Type::Keyword(x), Type::Keyword(y)) => x.kind == y.kind,
        (Type::Conditional(x), Type::Conditional(y)) => type_alike(*x.check_type, *y.check_type)
            && type_alike(*x.extends_type, *y.extends_type) && type_alike(
            *x.true_type,
            *y.true_type,
        ) && type_alike(*x.false_type, *y.false_type),
        (Type::Tuple(x), Type::Tuple(y)) => tuple_elems_alike(x.elems, y.elems),
        (Type::Array(x), Type::Array(y)) => type_alike(*x.elem_type, *y.elem_type),
        (Type::Union(x), Type::Union(y)) => types_alike(x.types, y.types),
        (Type::Intersection(x), Type::Intersection(y)) => types_alike(x.types, y.types),
        (Type::Function(x), Type::Function(y)) => opt_decl_alike(x.type_params, y.type_params)
            && fn_params_alike(x.params, y.params) && type_alike(*x.ret_ty, *y.ret_ty),
        (Type::Constructor(x), Type::Constructor(y)) => opt_decl_alike(
            x.type_params,
            y.type_params,
        ) && fn_params_alike(x.params, y.params) && type_alike(*x.type_ann, *y.type_ann),
        (Type::Operator(x), Type::Operator(y)) => x.op == y.op && type_alike(*x.ty, *y.ty),
        (Type::Param(x), Type::Param(y)) => x.slot == y.slot,
        (Type::Interface(x), Type::Interface(y)) => x.name.same(y.name) && opt_decl_alike(
            x.type_params,
            y.type_params,
        ) && ts_exprs_alike(x.extends, y.extends) && elements_alike(x.body, y.body),
        (Type::Alias(x), Type::Alias(y)) => opt_decl_alike(x.type_params, y.type_params)
            && type_alike(*x.ty, *y.ty),
        (Type::Mapped(x), Type::Mapped(y)) => x.readonly == y.readonly && x.optional == y.optional
            && param_alike(x.type_param, y.type_param) && opt_type_alike(x.ty, y.ty),
        (Type::Rest(x), Type::Rest(y)) => type_alike(*x.ty, *y.ty),
        (Type::Optional(x), Type::Optional(y)) => type_alike(*x.ty, *y.ty),
        _ => false,
    }
}

/// Whether two lists hold pairwise alike types.
pub open spec fn types_alike(a: List<Type>, b: List<Type>) -> bool
    decreases a,
{
    match (a, b) {
        (List::Nil, List::Nil) => true,
        (List::Cons(x, xs), List::Cons(y, ys)) => type_alike(*x, *y) && types_alike(*xs, *ys),
        _ => false,
    }
}

/// Whether both types are absent, or both present and alike.
pub open spec fn opt_type_alike(a: Option<Box<Type>>, b: Option<Box<Type>>) -> bool
    decreases a,
{
    match (a, b) {
        (None, None) => true,
        (Some(x), Some(y)) => type_alike(*x, *y),
        _ => false,
    }
}

/// Whether two type parameters have the same name and alike constraints and
/// defaults.
pub open spec fn param_alike(a: TypeParam, b: TypeParam) -> bool
    decreases a,
{
    a.name.same(b.name) && opt_type_alike(a.constraint, b.constraint) && opt_type_alike(
        a.default,
        b.default,
    )
}

/// Whether two lists hold pairwise alike type parameters.
pub open spec fn params_alike(a: List<TypeParam>, b: List<TypeParam>) -> bool
    decreases a,
{
    match (a, b) {
        (List::Nil, List::Nil) => true,
        (List::Cons(x, xs), List::Cons(y, ys)) => param_alike(*x, *y) && params_alike(*xs, *ys),
        _ => false,
    }
}

/// Whether both declarations are absent, or both present with alike
/// parameters.
pub open spec fn opt_decl_alike(a: Option<TypeParamDecl>, b: Option<TypeParamDecl>) -> bool
    decreases a,
{
    match (a, b) {
        (None, None) => true,
        (Some(x), Some(y)) => params_alike(x.params, y.params),
        _ => false,
    }
}

/// Whether both argument lists are absent, or both present with alike
/// arguments.
pub open spec fn inst_alike(
    a: Option<TypeParamInstantiation>,
    b: Option<TypeParamInstantiation>,
) -> bool
    decreases a,
{
    match (a, b) {
        (None, None) => true,
        (Some(x), Some(y)) => types_alike(x.params, y.params),
        _ => false,
    }
}

/// Whether two import types name the same thing with alike arguments.
pub open spec fn import_alike(a: ImportType, b: ImportType) -> bool
    decreases a,
{
    a.arg.alike(b.arg) && (match (a.qualifier, b.qualifier) {
        (None, None) => true,
        (Some(x), Some(y)) => x.alike(y),
        _ => false,
    }) && inst_alike(a.type_params, b.type_params)
}

/// Whether two parameters are both required or both not, and of alike
/// types.
pub open spec fn fn_param_alike(a: FnParam, b: FnParam) -> bool
    decreases a,
{
    a.required == b.required && type_alike(*a.ty, *b.ty)
}

/// Whether two lists hold pairwise alike parameters.
pub open spec fn fn_params_alike(a: List<FnParam>, b: List<FnParam>) -> bool
    decreases a,
{
    match (a, b) {
        (List::Nil, List::Nil) => true,
        (List::Cons(x, xs), List::Cons(y, ys)) => fn_param_alike(*x, *y) && fn_params_alike(
            *xs,
            *ys,
        ),
        _ => false,
    }
}

/// Whether two lists hold tuple elements of pairwise alike types.
pub open spec fn tuple_elems_alike(a: List<TupleElement>, b: List<TupleElement>) -> bool
    decreases a,
{
    match (a, b) {
        (List::Nil, List::Nil) => true,
        (List::Cons(x, xs), List::Cons(y, ys)) => type_alike(x.ty, y.ty) && tuple_elems_alike(
            *xs,
            *ys,
        ),
        _ => false,
    }
}

/// Whether two lists name the same parents with alike arguments.
pub open spec fn ts_exprs_alike(a: List<TsExpr>, b: List<TsExpr>) -> bool
    decreases a,
{
    match (a, b) {
        (List::Nil, List::Nil) => true,
        (List::Cons(x, xs), List::Cons(y, ys)) => x.expr.alike(y.expr) && inst_alike(
            x.type_args,
            y.type_args,
        ) && ts_exprs_alike(*xs, *ys),
        _ => false,
    }
}

/// Whether two members are of the same kind and alike in every part but
/// their spans.
pub open spec fn element_alike(a: TypeElement, b: TypeElement) -> bool
    decreases a,
{
    match (a, b) {
        (TypeElement::Call(x), TypeElement::Call(y)) => fn_params_alike(x.params, y.params)
            && opt_decl_alike(x.type_params, y.type_params) && opt_type_alike(x.ret_ty, y.ret_ty),
        (TypeElement::Constructor(x), TypeElement::Constructor(y)) => fn_params_alike(
            x.params,
            y.params,
        ) && opt_decl_alike(x.type_params, y.type_params) && opt_type_alike(x.ret_ty, y.ret_ty),
        (TypeElement::Property(x), TypeElement::Property(y)) => x.readonly == y.readonly
            && x.key.alike(*y.key) && x.computed == y.computed && x.optional == y.optional
            && fn_params_alike(x.params, y.params) && opt_type_alike(x.type_ann, y.type_ann)
            && opt_decl_alike(x.type_params, y.type_params),
        (TypeElement::Method(x), TypeElement::Method(y)) => x.readonly == y.readonly
            && x.key.alike(*y.key) && x.computed == y.computed && x.optional == y.optional
            && fn_params_alike(x.params, y.params) && opt_type_alike(x.ret_ty, y.ret_ty)
            && opt_decl_alike(x.type_params, y.type_params),
        (TypeElement::Index(x), TypeElement::Index(y)) => fn_params_alike(x.params, y.params)
            && opt_type_alike(x.type_ann, y.type_ann) && x.readonly == y.readonly,
        _ => false,
    }
}

/// Whether two lists hold pairwise alike members.
pub open spec fn elements_alike(a: List<TypeElement>, b: List<TypeElement>) -> bool
    decreases a,
{
    match (a, b) {
        (List::Nil, List::Nil) => true,
        (List::Cons(x, xs), List::Cons(y, ys)) => element_alike(*x, *y) && elements_alike(
            *xs,
            *ys,
        ),
        _ => false,
    }
}

impl Type {
    /// Tells whether `self` and `other` are structurally identical.
    pub fn type_eq(&self, other: &Type) -> (b: bool)
        ensures
            b == type_alike(*self, *other),
        decreases *self,
    {
        match (self, other) {
            (Type::This(_), Type::This(_)) => true,
            (Type::Lit(x), Type::Lit(y)) => x.lit.eq_ignore_span(&y.lit),
            (Type::Query(x), Type::Query(y)) => match (&x.expr, &y.expr) {
                (QueryExpr::TsEntityName(n), QueryExpr::TsEntityName(m)) => n.eq_ignore_span(m),
                (QueryExpr::Import(i), QueryExpr::Import(j)) => import_eq(i, j),
                _ => false,
            },
            (Type::Infer(x), Type::Infer(y)) => param_eq(&x.type_param, &y.type_param),
            (Type::Import(x), Type::Import(y)) => import_eq(x, y),
            (Type::Predicate(x), Type::Predicate(y)) => x.param_name.eq_ignore_span(&y.param_name)
                && x.asserts == y.asserts && opt_type_eq(&x.ty, &y.ty),
            (Type::IndexedAccessType(x), Type::IndexedAccessType(y)) => x.readonly == y.readonly
                && x.obj_type.type_eq(&y.obj_type) && x.index_type.type_eq(&y.index_type),
            (Type::Ref(x), Type::Ref(y)) => x.name.eq_ignore_span(&y.name) && inst_eq(
                &x.type_args,
                &y.type_args,
            ),
            (Type::TypeLit(x), Type::TypeLit(y)) => elements_eq(&x.members, &y.members),
            (Type::Keyword(x), Type::Keyword(y)) => x.kind == y.kind,
            (Type::Conditional(x), Type::Conditional(y)) => x.check_type.type_eq(&y.check_type)
                && x.extends_type.type_eq(&y.extends_type) && x.true_type.type_eq(&y.true_type)
                && x.false_type.type_eq(&y.false_type),
            (Type::Tuple(x), Type::Tuple(y)) => tuple_elems_eq(&x.elems, &y.elems),
            (Type::Array(x), Type::Array(y)) => x.elem_type.type_eq(&y.elem_type),
            (Type::Union(x), Type::Union(y)) => types_eq(&x.types, &y.types),
            (Type::Intersection(x), Type::Intersection(y)) => types_eq(&x.types, &y.types),
            (Type::Function(x), Type::Function(y)) => opt_decl_eq(&x.type_params, &y.type_params)
                && fn_params_eq(&x.params, &y.params) && x.ret_ty.type_eq(&y.ret_ty),
            (Type::Constructor(x), Type::Constructor(y)) => opt_decl_eq(
                &x.type_params,
                &y.type_params,
            ) && fn_params_eq(&x.params, &y.params) && x.type_ann.type_eq(&y.type_ann),
            (Type::Operator(x), Type::Operator(y)) => x.op == y.op && x.ty.type_eq(&y.ty),
            (Type::Param(x), Type::Param(y)) => x.slot == y.slot,
            (Type::Interface(x), Type::Interface(y)) => x.name.is(&y.name) && opt_decl_eq(
                &x.type_params,
                &y.type_params,
            ) && ts_exprs_eq(&x.extends, &y.extends) && elements_eq(&x.body, &y.body),
            (Type::Alias(x), Type::Alias(y)) => opt_decl_eq(&x.type_params, &y.type_params)
                && x.ty.type_eq(&y.ty),
            (Type::Mapped(x), Type::Mapped(y)) => opt_flag_eq(&x.readonly, &y.readonly)
                && opt_flag_eq(&x.optional, &y.optional) && param_eq(&x.type_param, &y.type_param)
                && opt_type_eq(&x.ty, &y.ty),
            (Type::Rest(x), Type::Rest(y)) => x.ty.type_eq(&y.ty),
            (Type::Optional(x), Type::Optional(y)) => x.ty.type_eq(&y.ty),
            _ => false,
        }
    }
}

fn opt_flag_eq(a: &Option<crate::ast::TruePlusMinus>, b: &Option<crate::ast::TruePlusMinus>) -> (r:
    bool)
    ensures
        r == (*a == *b),
{
    match (a, b) {
        (None, None) => true,
        (Some(x), Some(y)) => *x == *y,
        _ => false,
    }
}

/// Tells whether two lists hold pairwise identical types.
pub fn types_eq(a: &List<Type>, b: &List<Type>) -> (r: bool)
    ensures
        r == types_alike(*a, *b),
    decreases *a,
{
    match (a, b) {
        (List::Nil, List::Nil) => true,
        (List::Cons(x, xs), List::Cons(y, ys)) => x.type_eq(y) && types_eq(xs, ys),
        _ => false,
    }
}

/// Tells whether both types are absent, or both present and identical.
pub fn opt_type_eq(a: &Option<Box<Type>>, b: &Option<Box<Type>>) -> (r: bool)
    ensures
        r == opt_type_alike(*a, *b),
    decreases *a,
{
    match (a, b) {
        (None, None) => true,
        (Some(x), Some(y)) => x.type_eq(y),
        _ => false,
    }
}

/// Tells whether two type parameters are identical.
pub fn param_eq(a: &TypeParam, b: &TypeParam) -> (r: bool)
    ensures
        r == param_alike(*a, *b),
    decreases *a,
{
    a.name.is(&b.name) && opt_type_eq(&a.constraint, &b.constraint) && opt_type_eq(
        &a.default,
        &b.default,
    )
}

/// Tells whether two lists hold pairwise identical type parameters.
pub fn params_eq(a: &List<TypeParam>, b: &List<TypeParam>) -> (r: bool)
    ensures
        r == params_alike(*a, *b),
    decreases *a,
{
    match (a, b) {
        (List::Nil, List::Nil) => true,
        (List::Cons(x, xs), List::Cons(y, ys)) => param_eq(x, y) && params_eq(xs, ys),
        _ => false,
    }
}

/// Tells whether two type parameter declarations are identical.
pub fn opt_decl_eq(a: &Option<TypeParamDecl>, b: &Option<TypeParamDecl>) -> (r: bool)
    ensures
        r == opt_decl_alike(*a, *b),
    decreases *a,
{
    match (a, b) {
        (None, None) => true,
        (Some(x), Some(y)) => params_eq(&x.params, &y.params),
        _ => false,
    }
}

/// Tells whether two lists of type arguments are identical.
pub fn inst_eq(a: &Option<TypeParamInstantiation>, b: &Option<TypeParamInstantiation>) -> (r: bool)
    ensures
        r == inst_alike(*a, *b),
    decreases *a,
{
    match (a, b) {
        (None, None) => true,
        (Some(x), Some(y)) => types_eq(&x.params, &y.params),
        _ => false,
    }
}

/// Tells whether two import types are identical.
pub fn import_eq(a: &ImportType, b: &ImportType) -> (r: bool)
    ensures
        r == import_alike(*a, *b),
    decreases *a,
{
    let q = match (&a.qualifier, &b.qualifier) {
        (None, None) => true,
        (Some(x), Some(y)) => x.eq_ignore_span(y),
        _ => false,
    };
    a.arg.eq_ignore_span(&b.arg) && q && inst_eq(&a.type_params, &b.type_params)
}

/// Tells whether two parameters are identical.
pub fn fn_param_eq(a: &FnParam, b: &FnParam) -> (r: bool)
    ensures
        r == fn_param_alike(*a, *b),
    decreases *a,
{
    a.required == b.required && a.ty.type_eq(&b.ty)
}

/// Tells whether two lists hold pairwise identical parameters.
pub fn fn_params_eq(a: &List<FnParam>, b: &List<FnParam>) -> (r: bool)
    ensures
        r == fn_params_alike(*a, *b),
    decreases *a,
{
    match (a, b) {
        (List::Nil, List::Nil) => true,
        (List::Cons(x, xs), List::Cons(y, ys)) => fn_param_eq(x, y) && fn_params_eq(xs, ys),
        _ => false,
    }
}

/// Tells whether two lists hold tuple elements of pairwise identical
/// types.
pub fn tuple_elems_eq(a: &List<TupleElement>, b: &List<TupleElement>) -> (r: bool)
    ensures
        r == tuple_elems_alike(*a, *b),
    decreases *a,
{
    match (a, b) {
        (List::Nil, List::Nil) => true,
        (List::Cons(x, xs), List::Cons(y, ys)) => x.ty.type_eq(&y.ty) && tuple_elems_eq(xs, ys),
        _ => false,
    }
}

/// Tells whether two lists of parents are identical.
pub fn ts_exprs_eq(a: &List<TsExpr>, b: &List<TsExpr>) -> (r: bool)
    ensures
        r == ts_exprs_alike(*a, *b),
    decreases *a,
{
    match (a, b) {
        (List::Nil, List::Nil) => true,
        (List::Cons(x, xs), List::Cons(y, ys)) => x.expr.eq_ignore_span(&y.expr) && inst_eq(
            &x.type_args,
            &y.type_args,
        ) && ts_exprs_eq(xs, ys),
        _ => false,
    }
}

/// Tells whether two members are identical.
pub fn element_eq(a: &TypeElement, b: &TypeElement) -> (r: bool)
    ensures
        r == element_alike(*a, *b),
    decreases *a,
{
    match (a, b) {
        (TypeElement::Call(x), TypeElement::Call(y)) => fn_params_eq(&x.params, &y.params)
            && opt_decl_eq(&x.type_params, &y.type_params) && opt_type_eq(&x.ret_ty, &y.ret_ty),
        (TypeElement::Constructor(x), TypeElement::Constructor(y)) => fn_params_eq(
            &x.params,
            &y.params,
        ) && opt_decl_eq(&x.type_params, &y.type_params) && opt_type_eq(&x.ret_ty, &y.ret_ty),
        (TypeElement::Property(x), TypeElement::Property(y)) => x.readonly == y.readonly
            && x.key.eq_ignore_span(&y.key) && x.computed == y.computed && x.optional
            == y.optional && fn_params_eq(&x.params, &y.params) && opt_type_eq(
            &x.type_ann,
            &y.type_ann,
        ) && opt_decl_eq(&x.type_params, &y.type_params),
        (TypeElement::Method(x), TypeElement::Method(y)) => x.readonly == y.readonly
            && x.key.eq_ignore_span(&y.key) && x.computed == y.computed && x.optional
            == y.optional && fn_params_eq(&x.params, &y.params) && opt_type_eq(
            &x.ret_ty,
            &y.ret_ty,
        ) && opt_decl_eq(&x.type_params, &y.type_params),
        (TypeElement::Index(x), TypeElement::Index(y)) => fn_params_eq(&x.params, &y.params)
            && opt_type_eq(&x.type_ann, &y.type_ann) && x.readonly == y.readonly,
        _ => false,
    }
}

/// Tells whether two lists hold pairwise identical members.
pub fn elements_eq(a: &List<TypeElement>, b: &List<TypeElement>) -> (r: bool)
    ensures
        r == elements_alike(*a, *b),
    decreases *a,
{
    match (a, b) {
        (List::Nil, List::Nil) => true,
        (List::Cons(x, xs), List::Cons(y, ys)) => element_eq(x, y) && elements_eq(xs, ys),
        _ => false,
    }
}

/// Every type is structurally identical to itself.
pub proof fn type_alike_is_reflexive(t: Type)
    ensures
        type_alike(t, t),
    decreases t,
{
    match t {
        Type::This(_) => {},
        Type::Lit(_) => {},
        Type::Query(x) => match x.expr {
            QueryExpr::TsEntityName(n) => name_alike_is_reflexive(n),
            QueryExpr::Import(i) => import_alike_is_reflexive(i),
        },
        Type::Infer(x) => param_alike_is_reflexive(x.type_param),
        Type::Import(x) => import_alike_is_reflexive(x),
        Type::Predicate(x) => opt_type_alike_is_reflexive(x.ty),
        Type::IndexedAccessType(x) => {
            type_alike_is_reflexive(*x.obj_type);
            type_alike_is_reflexive(*x.index_type);
        },
        Type::Ref(x) => {
            name_alike_is_reflexive(x.name);
            inst_alike_is_reflexive(x.type_args);
        },
        Type::TypeLit(x) => elements_alike_is_reflexive(x.members),
        Type::Keyword(_) => {},
        Type::Conditional(x) => {
            type_alike_is_reflexive(*x.check_type);
            type_alike_is_reflexive(*x.extends_type);
            type_alike_is_reflexive(*x.true_type);
            type_alike_is_reflexive(*x.false_type);
        },
        Type::Tuple(x) => tuple_elems_alike_is_reflexive(x.elems),
        Type::Array(x) => type_alike_is_reflexive(*x.elem_type),
        Type::Union(x) => types_alike_is_reflexive(x.types),
        Type::Intersection(x) => types_alike_is_reflexive(x.types),
        Type::Function(x) => {
            opt_decl_alike_is_reflexive(x.type_params);
            fn_params_alike_is_reflexive(x.params);
            type_alike_is_reflexive(*x.ret_ty);
        },
        Type::Constructor(x) => {
            opt_decl_alike_is_reflexive(x.type_params);
            fn_params_alike_is_reflexive(x.params);
            type_alike_is_reflexive(*x.type_ann);
        },
        Type::Operator(x) => type_alike_is_reflexive(*x.ty),
        Type::Param(_) => {},
        Type::Interface(x) => {
            opt_decl_alike_is_reflexive(x.type_params);
            ts_exprs_alike_is_reflexive(x.extends);
            elements_alike_is_reflexive(x.body);
        },
        Type::Alias(x) => {
            opt_decl_alike_is_reflexive(x.type_params);
            type_alike_is_reflexive(*x.ty);
        },
        Type::Mapped(x) => {
            param_alike_is_reflexive(x.type_param);
            opt_type_alike_is_reflexive(x.ty);
        },
        Type::Rest(x) => type_alike_is_reflexive(*x.ty),
        Type::Optional(x) => type_alike_is_reflexive(*x.ty),
    }
}

proof fn name_alike_is_reflexive(n: crate::expr::TsEntityName)
    ensures
        n.alike(n),
    decreases n,
{
    match n {
        crate::expr::TsEntityName::Ident(_) => {},
        crate::expr::TsEntityName::TsQualifiedName(q) => name_alike_is_reflexive(q.left),
    }
}

proof fn types_alike_is_reflexive(l: List<Type>)
    ensures
        types_alike(l, l),
    decreases l,
{
    match l {
        List::Nil => {},
        List::Cons(head, tail) => {
            type_alike_is_reflexive(*head);
            types_alike_is_reflexive(*tail);
        },
    }
}

proof fn opt_type_alike_is_reflexive(o: Option<Box<Type>>)
    ensures
        opt_type_alike(o, o),
    decreases o,
{
    match o {
        Some(t) => type_alike_is_reflexive(*t),
        None => {},
    }
}

proof fn param_alike_is_reflexive(p: TypeParam)
    ensures
        param_alike(p, p),
    decreases p,
{
    opt_type_alike_is_reflexive(p.constraint);
    opt_type_alike_is_reflexive(p.default);
}

proof fn params_alike_is_reflexive(l: List<TypeParam>)
    ensures
        params_alike(l, l),
    decreases l,
{
    match l {
        List::Nil => {},
        List::Cons(head, tail) => {
            param_alike_is_reflexive(*head);
            params_alike_is_reflexive(*tail);
        },
    }
}

proof fn opt_decl_alike_is_reflexive(o: Option<TypeParamDecl>)
    ensures
        opt_decl_alike(o, o),
    decreases o,
{
    match o {
        Some(d) => params_alike_is_reflexive(d.params),
        None => {},
    }
}

proof fn inst_alike_is_reflexive(o: Option<TypeParamInstantiation>)
    ensures
        inst_alike(o, o),
    decreases o,
{
    match o {
        Some(i) => types_alike_is_reflexive(i.params),
        None => {},
    }
}

proof fn import_alike_is_reflexive(i: ImportType)
    ensures
        import_alike(i, i),
    decreases i,
{
    match i.qualifier {
        Some(q) => name_alike_is_reflexive(q),
        None => {},
    }
    inst_alike_is_reflexive(i.type_params);
}

proof fn fn_params_alike_is_reflexive(l: List<FnParam>)
    ensures
        fn_params_alike(l, l),
    decreases l,
{
    match l {
        List::Nil => {},
        List::Cons(head, tail) => {
            type_alike_is_reflexive(*head.ty);
            assert(fn_param_alike(*head, *head));
            fn_params_alike_is_reflexive(*tail);
        },
    }
}

proof fn tuple_elems_alike_is_reflexive(l: List<TupleElement>)
    ensures
        tuple_elems_alike(l, l),
    decreases l,
{
    match l {
        List::Nil => {},
        List::Cons(head, tail) => {
            type_alike_is_reflexive(head.ty);
            tuple_elems_alike_is_reflexive(*tail);
        },
    }
}

proof fn ts_exprs_alike_is_reflexive(l: List<TsExpr>)
    ensures
        ts_exprs_alike(l, l),
    decreases l,
{
    match l {
        List::Nil => {},
        List::Cons(head, tail) => {
            name_alike_is_reflexive(head.expr);
            inst_alike_is_reflexive(head.type_args);
            ts_exprs_alike_is_reflexive(*tail);
        },
    }
}

proof fn element_alike_is_reflexive(e: TypeElement)
    ensures
        element_alike(e, e),
    decreases e,
{
    match e {
        TypeElement::Call(x) => {
            fn_params_alike_is_reflexive(x.params);
            opt_decl_alike_is_reflexive(x.type_params);
            opt_type_alike_is_reflexive(x.ret_ty);
        },
        TypeElement::Constructor(x) => {
            fn_params_alike_is_reflexive(x.params);
            opt_decl_alike_is_reflexive(x.type_params);
            opt_type_alike_is_reflexive(x.ret_ty);
        },
        TypeElement::Property(x) => {
            fn_params_alike_is_reflexive(x.params);
            opt_decl_alike_is_reflexive(x.type_params);
            opt_type_alike_is_reflexive(x.type_ann);
        },
        TypeElement::Method(x) => {
            fn_params_alike_is_reflexive(x.params);
            opt_decl_alike_is_reflexive(x.type_params);
            opt_type_alike_is_reflexive(x.ret_ty);
        },
        TypeElement::Index(x) => {
            fn_params_alike_is_reflexive(x.params);
            opt_type_alike_is_reflexive(x.type_ann);
        },
    }
}

proof fn elements_alike_is_reflexive(l: List<TypeElement>)
    ensures
        elements_alike(l, l),
    decreases l,
{
    match l {
        List::Nil => {},
        List::Cons(head, tail) => {
            element_alike_is_reflexive(*head);
            elements_alike_is_reflexive(*tail);
        },
    }
}

/// Structural identity does not depend on the order of the two types.
pub proof fn type_alike_is_symmetric(a: Type, b: Type)
    ensures
        type_alike(a, b) == type_alike(b, a),
    decreases a,
{
    match (a, b) {
        (Type::Query(x), Type::Query(y)) => match (x.expr, y.expr) {
            (QueryExpr::TsEntityName(n), QueryExpr::TsEntityName(m)) => {
                name_alike_is_symmetric(n, m);
            },
            (QueryExpr::Import(i), QueryExpr::Import(j)) => import_alike_is_symmetric(i, j),
            _ => {},
        },
        (Type::Infer(x), Type::Infer(y)) => param_alike_is_symmetric(x.type_param, y.type_param),
        (Type::Import(x), Type::Import(y)) => import_alike_is_symmetric(x, y),
        (Type::Predicate(x), Type::Predicate(y)) => opt_type_alike_is_symmetric(x.ty, y.ty),
        (Type::IndexedAccessType(x), Type::IndexedAccessType(y)) => {
            type_alike_is_symmetric(*x.obj_type, *y.obj_type);
            type_alike_is_symmetric(*x.index_type, *y.index_type);
        },
        (Type::Ref(x), Type::Ref(y)) => {
            name_alike_is_symmetric(x.name, y.name);
            inst_alike_is_symmetric(x.type_args, y.type_args);
        },
        (Type::TypeLit(x), Type::TypeLit(y)) => elements_alike_is_symmetric(x.members, y.members),
        (Type::Conditional(x), Type::Conditional(y)) => {
            type_alike_is_symmetric(*x.check_type, *y.check_type);
            type_alike_is_symmetric(*x.extends_type, *y.extends_type);
            type_alike_is_symmetric(*x.true_type, *y.true_type);
            type_alike_is_symmetric(*x.false_type, *y.false_type);
        },
        (Type::Tuple(x), Type::Tuple(y)) => tuple_elems_alike_is_symmetric(x.elems, y.elems),
        (Type::Array(x), Type::Array(y)) => type_alike_is_symmetric(*x.elem_type, *y.elem_type),
        (Type::Union(x), Type::Union(y)) => types_alike_is_symmetric(x.types, y.types),
        (Type::Intersection(x), Type::Intersection(y)) => types_alike_is_symmetric(
            x.types,
            y.types,
        ),
        (Type::Function(x), Type::Function(y)) => {
            opt_decl_alike_is_symmetric(x.type_params, y.type_params);
            fn_params_alike_is_symmetric(x.params, y.params);
            type_alike_is_symmetric(*x.ret_ty, *y.ret_ty);
        },
        (Type::Constructor(x), Type::Constructor(y)) => {
            opt_decl_alike_is_symmetric(x.type_params, y.type_params);
            fn_params_alike_is_symmetric(x.params, y.params);
            type_alike_is_symmetric(*x.type_ann, *y.type_ann);
        },
        (Type::Operator(x), Type::Operator(y)) => type_alike_is_symmetric(*x.ty, *y.ty),
        (Type::Interface(x), Type::Interface(y)) => {
            opt_decl_alike_is_symmetric(x.type_params, y.type_params);
            ts_exprs_alike_is_symmetric(x.extends, y.extends);
            elements_alike_is_symmetric(x.body, y.body);
        },
        (Type::Alias(x), Type::Alias(y)) => {
            opt_decl_alike_is_symmetric(x.type_params, y.type_params);
            type_alike_is_symmetric(*x.ty, *y.ty);
        },
        (Type::Mapped(x), Type::Mapped(y)) => {
            param_alike_is_symmetric(x.type_param, y.type_param);
            opt_type_alike_is_symmetric(x.ty, y.ty);
        },
        (Type::Rest(x), Type::Rest(y)) => type_alike_is_symmetric(*x.ty, *y.ty),
        (Type::Optional(x), Type::Optional(y)) => type_alike_is_symmetric(*x.ty, *y.ty),
        _ => {},
    }
}

proof fn name_alike_is_symmetric(a: crate::expr::TsEntityName, b: crate::expr::TsEntityName)
    ensures
        a.alike(b) == b.alike(a),
    decreases a,
{
    match (a, b) {
        (
            crate::expr::TsEntityName::TsQualifiedName(x),
            crate::expr::TsEntityName::TsQualifiedName(y),
        ) => name_alike_is_symmetric(x.left, y.left),
        _ => {},
    }
}

proof fn types_alike_is_symmetric(a: List<Type>, b: List<Type>)
    ensures
        types_alike(a, b) == types_alike(b, a),
    decreases a,
{
    match (a, b) {
        (List::Cons(x, xs), List::Cons(y, ys)) => {
            type_alike_is_symmetric(*x, *y);
            types_alike_is_symmetric(*xs, *ys);
        },
        _ => {},
    }
}

proof fn opt_type_alike_is_symmetric(a: Option<Box<Type>>, b: Option<Box<Type>>)
    ensures
        opt_type_alike(a, b) == opt_type_alike(b, a),
    decreases a,
{
    match (a, b) {
        (Some(x), Some(y)) => type_alike_is_symmetric(*x, *y),
        _ => {},
    }
}

proof fn param_alike_is_symmetric(a: TypeParam, b: TypeParam)
    ensures
        param_alike(a, b) == param_alike(b, a),
    decreases a,
{
    opt_type_alike_is_symmetric(a.constraint, b.constraint);
    opt_type_alike_is_symmetric(a.default, b.default);
}

proof fn params_alike_is_symmetric(a: List<TypeParam>, b: List<TypeParam>)
    ensures
        params_alike(a, b) == params_alike(b, a),
    decreases a,
{
    match (a, b) {
        (List::Cons(x, xs), List::Cons(y, ys)) => {
            param_alike_is_symmetric(*x, *y);
            params_alike_is_symmetric(*xs, *ys);
        },
        _ => {},
    }
}

proof fn opt_decl_alike_is_symmetric(a: Option<TypeParamDecl>, b: Option<TypeParamDecl>)
    ensures
        opt_decl_alike(a, b) == opt_decl_alike(b, a),
    decreases a,
{
    match (a, b) {
        (Some(x), Some(y)) => params_alike_is_symmetric(x.params, y.params),
        _ => {},
    }
}

proof fn inst_alike_is_symmetric(
    a: Option<TypeParamInstantiation>,
    b: Option<TypeParamInstantiation>,
)
    ensures
        inst_alike(a, b) == inst_alike(b, a),
    decreases a,
{
    match (a, b) {
        (Some(x), Some(y)) => types_alike_is_symmetric(x.params, y.params),
        _ => {},
    }
}

proof fn import_alike_is_symmetric(a: ImportType, b: ImportType)
    ensures
        import_alike(a, b) == import_alike(b, a),
    decreases a,
{
    match (a.qualifier, b.qualifier) {
        (Some(x), Some(y)) => name_alike_is_symmetric(x, y),
        _ => {},
    }
    inst_alike_is_symmetric(a.type_params, b.type_params);
}

proof fn fn_params_alike_is_symmetric(a: List<FnParam>, b: List<FnParam>)
    ensures
        fn_params_alike(a, b) == fn_params_alike(b, a),
    decreases a,
{
    match (a, b) {
        (List::Cons(x, xs), List::Cons(y, ys)) => {
            type_alike_is_symmetric(*x.ty, *y.ty);
            assert(fn_param_alike(*x, *y) == fn_param_alike(*y, *x));
            fn_params_alike_is_symmetric(*xs, *ys);
        },
        _ => {},
    }
}

proof fn tuple_elems_alike_is_symmetric(a: List<TupleElement>, b: List<TupleElement>)
    ensures
        tuple_elems_alike(a, b) == tuple_elems_alike(b, a),
    decreases a,
{
    match (a, b) {
        (List::Cons(x, xs), List::Cons(y, ys)) => {
            type_alike_is_symmetric(x.ty, y.ty);
            tuple_elems_alike_is_symmetric(*xs, *ys);
        },
        _ => {},
    }
}

proof fn ts_exprs_alike_is_symmetric(a: List<TsExpr>, b: List<TsExpr>)
    ensures
        ts_exprs_alike(a, b) == ts_exprs_alike(b, a),
    decreases a,
{
    match (a, b) {
        (List::Cons(x, xs), List::Cons(y, ys)) => {
            name_alike_is_symmetric(x.expr, y.expr);
            inst_alike_is_symmetric(x.type_args, y.type_args);
            ts_exprs_alike_is_symmetric(*xs, *ys);
        },
        _ => {},
    }
}

proof fn element_alike_is_symmetric(a: TypeElement, b: TypeElement)
    ensures
        element_alike(a, b) == element_alike(b, a),
    decreases a,
{
    match (a, b) {
        (TypeElement::Call(x), TypeElement::Call(y)) => {
            fn_params_alike_is_symmetric(x.params, y.params);
            opt_decl_alike_is_symmetric(x.type_params, y.type_params);
            opt_type_alike_is_symmetric(x.ret_ty, y.ret_ty);
        },
        (TypeElement::Constructor(x), TypeElement::Constructor(y)) => {
            fn_params_alike_is_symmetric(x.params, y.params);
            opt_decl_alike_is_symmetric(x.type_params, y.type_params);
            opt_type_alike_is_symmetric(x.ret_ty, y.ret_ty);
        },
        (TypeElement::Property(x), TypeElement::Property(y)) => {
            fn_params_alike_is_symmetric(x.params, y.params);
            opt_decl_alike_is_symmetric(x.type_params, y.type_params);
            opt_type_alike_is_symmetric(x.type_ann, y.type_ann);
        },
        (TypeElement::Method(x), TypeElement::Method(y)) => {
            fn_params_alike_is_symmetric(x.params, y.params);
            opt_decl_alike_is_symmetric(x.type_params, y.type_params);
            opt_type_alike_is_symmetric(x.ret_ty, y.ret_ty);
        },
        (TypeElement::Index(x), TypeElement::Index(y)) => {
            fn_params_alike_is_symmetric(x.params, y.params);
            opt_type_alike_is_symmetric(x.type_ann, y.type_ann);
        },
        _ => {},
    }
}

proof fn elements_alike_is_symmetric(a: List<TypeElement>, b: List<TypeElement>)
    ensures
        elements_alike(a, b) == elements_alike(b, a),
    decreases a,
{
    match (a, b) {
        (List::Cons(x, xs), List::Cons(y, ys)) => {
            element_alike_is_symmetric(*x, *y);
            elements_alike_is_symmetric(*xs, *ys);
        },
        _ => {},
    }
}

/// Two types that are structurally identical to a third are structurally
/// identical to each other.
pub proof fn type_alike_is_transitive(a: Type, b: Type, c: Type)
    requires
        type_alike(a, b),
        type_alike(b, c),
    ensures
        type_alike(a, c),
    decreases a,
{
    match (a, b, c) {
        (Type::Query(x), Type::Query(y), Type::Query(z)) => match (x.expr, y.expr, z.expr) {
            (
                QueryExpr::TsEntityName(n),
                QueryExpr::TsEntityName(m),
                QueryExpr::TsEntityName(k),
            ) => {
                name_alike_is_transitive(n, m, k);
            },
            (QueryExpr::Import(i), QueryExpr::Import(j), QueryExpr::Import(l)) => {
                import_alike_is_transitive(i, j, l);
            },
            _ => {},
        },
        (Type::Infer(x), Type::Infer(y), Type::Infer(z)) => {
            param_alike_is_transitive(x.type_param, y.type_param, z.type_param);
        },
        (Type::Import(x), Type::Import(y), Type::Import(z)) => import_alike_is_transitive(x, y, z),
        (Type::Predicate(x), Type::Predicate(y), Type::Predicate(z)) => {
            opt_type_alike_is_transitive(x.ty, y.ty, z.ty);
        },
        (Type::IndexedAccessType(x), Type::IndexedAccessType(y), Type::IndexedAccessType(z)) => {
            type_alike_is_transitive(*x.obj_type, *y.obj_type, *z.obj_type);
            type_alike_is_transitive(*x.index_type, *y.index_type, *z.index_type);
        },
        (Type::Ref(x), Type::Ref(y), Type::Ref(z)) => {
            name_alike_is_transitive(x.name, y.name, z.name);
            inst_alike_is_transitive(x.type_args, y.type_args, z.type_args);
        },
        (Type::TypeLit(x), Type::TypeLit(y), Type::TypeLit(z)) => {
            elements_alike_is_transitive(x.members, y.members, z.members);
        },
        (Type::Conditional(x), Type::Conditional(y), Type::Conditional(z)) => {
            type_alike_is_transitive(*x.check_type, *y.check_type, *z.check_type);
            type_alike_is_transitive(*x.extends_type, *y.extends_type, *z.extends_type);
            type_alike_is_transitive(*x.true_type, *y.true_type, *z.true_type);
            type_alike_is_transitive(*x.false_type, *y.false_type, *z.false_type);
        },
        (Type::Tuple(x), Type::Tuple(y), Type::Tuple(z)) => {
            tuple_elems_alike_is_transitive(x.elems, y.elems, z.elems);
        },
        (Type::Array(x), Type::Array(y), Type::Array(z)) => {
            type_alike_is_transitive(*x.elem_type, *y.elem_type, *z.elem_type);
        },
        (Type::Union(x), Type::Union(y), Type::Union(z)) => {
            types_alike_is_transitive(x.types, y.types, z.types);
        },
        (Type::Intersection(x), Type::Intersection(y), Type::Intersection(z)) => {
            types_alike_is_transitive(x.types, y.types, z.types);
        },
        (Type::Function(x), Type::Function(y), Type::Function(z)) => {
            opt_decl_alike_is_transitive(x.type_params, y.type_params, z.type_params);
            fn_params_alike_is_transitive(x.params, y.params, z.params);
            type_alike_is_transitive(*x.ret_ty, *y.ret_ty, *z.ret_ty);
        },
        (Type::Constructor(x), Type::Constructor(y), Type::Constructor(z)) => {
            opt_decl_alike_is_transitive(x.type_params, y.type_params, z.type_params);
            fn_params_alike_is_transitive(x.params, y.params, z.params);
            type_alike_is_transitive(*x.type_ann, *y.type_ann, *z.type_ann);
        },
        (Type::Operator(x), Type::Operator(y), Type::Operator(z)) => {
            type_alike_is_transitive(*x.ty, *y.ty, *z.ty);
        },
        (Type::Interface(x), Type::Interface(y), Type::Interface(z)) => {
            opt_decl_alike_is_transitive(x.type_params, y.type_params, z.type_params);
            ts_exprs_alike_is_transitive(x.extends, y.extends, z.extends);
            elements_alike_is_transitive(x.body, y.body, z.body);
        },
        (Type::Alias(x), Type::Alias(y), Type::Alias(z)) => {
            opt_decl_alike_is_transitive(x.type_params, y.type_params, z.type_params);
            type_alike_is_transitive(*x.ty, *y.ty, *z.ty);
        },
        (Type::Mapped(x), Type::Mapped(y), Type::Mapped(z)) => {
            param_alike_is_transitive(x.type_param, y.type_param, z.type_param);
            opt_type_alike_is_transitive(x.ty, y.ty, z.ty);
        },
        (Type::Rest(x), Type::Rest(y), Type::Rest(z)) => {
            type_alike_is_transitive(*x.ty, *y.ty, *z.ty);
        },
        (Type::Optional(x), Type::Optional(y), Type::Optional(z)) => {
            type_alike_is_transitive(*x.ty, *y.ty, *z.ty);
        },
        _ => {},
    }
}

proof fn name_alike_is_transitive(
    a: crate::expr::TsEntityName,
    b: crate::expr::TsEntityName,
    c: crate::expr::TsEntityName,
)
    requires
        a.alike(b),
        b.alike(c),
    ensures
        a.alike(c),
    decreases a,
{
    match (a, b, c) {
        (
            crate::expr::TsEntityName::TsQualifiedName(x),
            crate::expr::TsEntityName::TsQualifiedName(y),
            crate::expr::TsEntityName::TsQualifiedName(z),
        ) => {
            name_alike_is_transitive(x.left, y.left, z.left);
        },
        _ => {},
    }
}

proof fn types_alike_is_transitive(a: List<Type>, b: List<Type>, c: List<Type>)
    requires
        types_alike(a, b),
        types_alike(b, c),
    ensures
        types_alike(a, c),
    decreases a,
{
    match (a, b, c) {
        (List::Cons(x, xs), List::Cons(y, ys), List::Cons(z, zs)) => {
            type_alike_is_transitive(*x, *y, *z);
            types_alike_is_transitive(*xs, *ys, *zs);
        },
        _ => {},
    }
}

proof fn opt_type_alike_is_transitive(
    a: Option<Box<Type>>,
    b: Option<Box<Type>>,
    c: Option<Box<Type>>,
)
    requires
        opt_type_alike(a, b),
        opt_type_alike(b, c),
    ensures
        opt_type_alike(a, c),
    decreases a,
{
    match (a, b, c) {
        (Some(x), Some(y), Some(z)) => type_alike_is_transitive(*x, *y, *z),
        _ => {},
    }
}

proof fn param_alike_is_transitive(a: TypeParam, b: TypeParam, c: TypeParam)
    requires
        param_alike(a, b),
        param_alike(b, c),
    ensures
        param_alike(a, c),
    decreases a,
{
    opt_type_alike_is_transitive(a.constraint, b.constraint, c.constraint);
    opt_type_alike_is_transitive(a.default, b.default, c.default);
}

proof fn params_alike_is_transitive(a: List<TypeParam>, b: List<TypeParam>, c: List<TypeParam>)
    requires
        params_alike(a, b),
        params_alike(b, c),
    ensures
        params_alike(a, c),
    decreases a,
{
    match (a, b, c) {
        (List::Cons(x, xs), List::Cons(y, ys), List::Cons(z, zs)) => {
            param_alike_is_transitive(*x, *y, *z);
            params_alike_is_transitive(*xs, *ys, *zs);
        },
        _ => {},
    }
}

proof fn opt_decl_alike_is_transitive(
    a: Option<TypeParamDecl>,
    b: Option<TypeParamDecl>,
    c: Option<TypeParamDecl>,
)
    requires
        opt_decl_alike(a, b),
        opt_decl_alike(b, c),
    ensures
        opt_decl_alike(a, c),
    decreases a,
{
    match (a, b, c) {
        (Some(x), Some(y), Some(z)) => params_alike_is_transitive(x.params, y.params, z.params),
        _ => {},
    }
}

proof fn inst_alike_is_transitive(
    a: Option<TypeParamInstantiation>,
    b: Option<TypeParamInstantiation>,
    c: Option<TypeParamInstantiation>,
)
    requires
        inst_alike(a, b),
        inst_alike(b, c),
    ensures
        inst_alike(a, c),
    decreases a,
{
    match (a, b, c) {
        (Some(x), Some(y), Some(z)) => types_alike_is_transitive(x.params, y.params, z.params),
        _ => {},
    }
}

proof fn import_alike_is_transitive(a: ImportType, b: ImportType, c: ImportType)
    requires
        import_alike(a, b),
        import_alike(b, c),
    ensures
        import_alike(a, c),
    decreases a,
{
    match (a.qualifier, b.qualifier, c.qualifier) {
        (Some(x), Some(y), Some(z)) => name_alike_is_transitive(x, y, z),
        _ => {},
    }
    inst_alike_is_transitive(a.type_params, b.type_params, c.type_params);
}

proof fn fn_params_alike_is_transitive(a: List<FnParam>, b: List<FnParam>, c: List<FnParam>)
    requires
        fn_params_alike(a, b),
        fn_params_alike(b, c),
    ensures
        fn_params_alike(a, c),
    decreases a,
{
    match (a, b, c) {
        (List::Cons(x, xs), List::Cons(y, ys), List::Cons(z, zs)) => {
            assert(fn_param_alike(*x, *y));
            assert(fn_param_alike(*y, *z));
            type_alike_is_transitive(*x.ty, *y.ty, *z.ty);
            assert(fn_param_alike(*x, *z));
            fn_params_alike_is_transitive(*xs, *ys, *zs);
        },
        _ => {},
    }
}

proof fn tuple_elems_alike_is_transitive(
    a: List<TupleElement>,
    b: List<TupleElement>,
    c: List<TupleElement>,
)
    requires
        tuple_elems_alike(a, b),
        tuple_elems_alike(b, c),
    ensures
        tuple_elems_alike(a, c),
    decreases a,
{
    match (a, b, c) {
        (List::Cons(x, xs), List::Cons(y, ys), List::Cons(z, zs)) => {
            type_alike_is_transitive(x.ty, y.ty, z.ty);
            tuple_elems_alike_is_transitive(*xs, *ys, *zs);
        },
        _ => {},
    }
}

proof fn ts_exprs_alike_is_transitive(a: List<TsExpr>, b: List<TsExpr>, c: List<TsExpr>)
    requires
        ts_exprs_alike(a, b),
        ts_exprs_alike(b, c),
    ensures
        ts_exprs_alike(a, c),
    decreases a,
{
    match (a, b, c) {
        (List::Cons(x, xs), List::Cons(y, ys), List::Cons(z, zs)) => {
            name_alike_is_transitive(x.expr, y.expr, z.expr);
            inst_alike_is_transitive(x.type_args, y.type_args, z.type_args);
            ts_exprs_alike_is_transitive(*xs, *ys, *zs);
        },
        _ => {},
    }
}

proof fn element_alike_is_transitive(a: TypeElement, b: TypeElement, c: TypeElement)
    requires
        element_alike(a, b),
        element_alike(b, c),
    ensures
        element_alike(a, c),
    decreases a,
{
    match (a, b, c) {
        (TypeElement::Call(x), TypeElement::Call(y), TypeElement::Call(z)) => {
            fn_params_alike_is_transitive(x.params, y.params, z.params);
            opt_decl_alike_is_transitive(x.type_params, y.type_params, z.type_params);
            opt_type_alike_is_transitive(x.ret_ty, y.ret_ty, z.ret_ty);
        },
        (TypeElement::Constructor(x), TypeElement::Constructor(y), TypeElement::Constructor(z)) => {
            fn_params_alike_is_transitive(x.params, y.params, z.params);
            opt_decl_alike_is_transitive(x.type_params, y.type_params, z.type_params);
            opt_type_alike_is_transitive(x.ret_ty, y.ret_ty, z.ret_ty);
        },
        (TypeElement::Property(x), TypeElement::Property(y), TypeElement::Property(z)) => {
            fn_params_alike_is_transitive(x.params, y.params, z.params);
            opt_decl_alike_is_transitive(x.type_params, y.type_params, z.type_params);
            opt_type_alike_is_transitive(x.type_ann, y.type_ann, z.type_ann);
        },
        (TypeElement::Method(x), TypeElement::Method(y), TypeElement::Method(z)) => {
            fn_params_alike_is_transitive(x.params, y.params, z.params);
            opt_decl_alike_is_transitive(x.type_params, y.type_params, z.type_params);
            opt_type_alike_is_transitive(x.ret_ty, y.ret_ty, z.ret_ty);
        },
        (TypeElement::Index(x), TypeElement::Index(y), TypeElement::Index(z)) => {
            fn_params_alike_is_transitive(x.params, y.params, z.params);
            opt_type_alike_is_transitive(x.type_ann, y.type_ann, z.type_ann);
        },
        _ => {},
    }
}

proof fn elements_alike_is_transitive(
    a: List<TypeElement>,
    b: List<TypeElement>,
    c: List<TypeElement>,
)
    requires
        elements_alike(a, b),
        elements_alike(b, c),
    ensures
        elements_alike(a, c),
    decreases a,
{
    match (a, b, c) {
        (List::Cons(x, xs), List::Cons(y, ys), List::Cons(z, zs)) => {
            element_alike_is_transitive(*x, *y, *z);
            elements_alike_is_transitive(*xs, *ys, *zs);
        },
        _ => {},
    }
}

} // verus!
