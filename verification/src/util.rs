//! Searches over types.

use vstd::prelude::*;
use crate::list::List;
use crate::ty::{
    FnParam, ImportType, QueryExpr, TsExpr, TupleElement, Type, TypeElement, TypeParam,
    TypeParamDecl, TypeParamInstantiation,
};

verus! {

/// Whether an inference position (`infer T`) occurs anywhere in `t`.
pub open spec fn has_infer(t: Type) -> bool
    decreases t,
{
    match t {
        Type::This(_) => false,
        Type::Lit(_) => false,
        Type::Query(x) => match x.expr {
            QueryExpr::TsEntityName(_) => false,
            QueryExpr::Import(i) => import_has_infer(i),
        },
        Type::Infer(_) => true,
        Type::Import(x) => import_has_infer(x),
        Type::Predicate(x) => opt_has_infer(x.ty),
        Type::IndexedAccessType(x) => has_infer(*x.obj_type) || has_infer(*x.index_type),
        Type::Ref(x) => inst_has_infer(x.type_args),
        Type::TypeLit(x) => elements_have_infer(x.members),
        Type::Keyword(_) => false,
        Type::Conditional(x) => has_infer(*x.check_type) || has_infer(*x.extends_type)
            || has_infer(*x.true_type) || has_infer(*x.false_type),
        Type::Tuple(x) => tuple_elems_have_infer(x.elems),
        Type::Array(x) => has_infer(*x.elem_type),
        Type::Union(x) => types_have_infer(x.types),
        Type::Intersection(x) => types_have_infer(x.types),
        Type::Function(x) => decl_has_infer(x.type_params) || fn_params_have_infer(x.params)
            || has_infer(*x.ret_ty),
        Type::Constructor(x) => decl_has_infer(x.type_params) || fn_params_have_infer(x.params)
            || has_infer(*x.type_ann),
        Type::Operator(x) => has_infer(*x.ty),
        Type::Param(_) => false,
        Type::Interface(x) => decl_has_infer(x.type_params) || ts_exprs_have_infer(x.extends)
            || elements_have_infer(x.body),
        Type::Alias(x) => decl_has_infer(x.type_params) || has_infer(*x.ty),
        Type::Mapped(x) => param_has_infer(x.type_param) || opt_has_infer(x.ty),
        Type::Rest(x) => has_infer(*x.ty),
        Type::Optional(x) => has_infer(*x.ty),
    }
}

/// Whether an inference position occurs in one of the types.
pub open spec fn types_have_infer(l: List<Type>) -> bool
    decreases l,
{
    match l {
        List::Nil => false,
        List::Cons(head, tail) => has_infer(*head) || types_have_infer(*tail),
    }
}

/// Whether the type is there and an inference position occurs in it.
pub open spec fn opt_has_infer(o: Option<Box<Type>>) -> bool
    decreases o,
{
    match o {
        Some(t) => has_infer(*t),
        None => false,
    }
}

/// Whether an inference position occurs in the constraint or default of a
/// type parameter.
pub open spec fn param_has_infer(p: TypeParam) -> bool
    decreases p,
{
    opt_has_infer(p.constraint) || opt_has_infer(p.default)
}

/// Whether an inference position occurs in one of the type parameters.
pub open spec fn params_have_infer(l: List<TypeParam>) -> bool
    decreases l,
{
    match l {
        List::Nil => false,
        List::Cons(head, tail) => param_has_infer(*head) || params_have_infer(*tail),
    }
}

/// Whether an inference position occurs in a type parameter declaration.
pub open spec fn decl_has_infer(o: Option<TypeParamDecl>) -> bool
    decreases o,
{
    match o {
        Some(d) => params_have_infer(d.params),
        None => false,
    }
}

/// Whether an inference position occurs in one of the type arguments.
pub open spec fn inst_has_infer(o: Option<TypeParamInstantiation>) -> bool
    decreases o,
{
    match o {
        Some(i) => types_have_infer(i.params),
        None => false,
    }
}

/// Whether an inference position occurs in the arguments of an import
/// type.
pub open spec fn import_has_infer(i: ImportType) -> bool
    decreases i,
{
    inst_has_infer(i.type_params)
}

/// Whether an inference position occurs in the type of one of the
/// parameters.
pub open spec fn fn_params_have_infer(l: List<FnParam>) -> bool
    decreases l,
{
    match l {
        List::Nil => false,
        List::Cons(head, tail) => has_infer(*head.ty) || fn_params_have_infer(*tail),
    }
}

/// Whether an inference position occurs in one of the elements.
pub open spec fn tuple_elems_have_infer(l: List<TupleElement>) -> bool
    decreases l,
{
    match l {
        List::Nil => false,
        List::Cons(head, tail) => has_infer(head.ty) || tuple_elems_have_infer(*tail),
    }
}

/// Whether an inference position occurs in the arguments of one of the
/// parents.
pub open spec fn ts_exprs_have_infer(l: List<TsExpr>) -> bool
    decreases l,
{
    match l {
        List::Nil => false,
        List::Cons(head, tail) => inst_has_infer(head.type_args) || ts_exprs_have_infer(*tail),
    }
}

/// Whether an inference position occurs in a member.
pub open spec fn element_has_infer(e: TypeElement) -> bool
    decreases e,
{
    match e {
        TypeElement::Call(x) => fn_params_have_infer(x.params) || decl_has_infer(x.type_params)
            || opt_has_infer(x.ret_ty),
        TypeElement::Constructor(x) => fn_params_have_infer(x.params) || decl_has_infer(
            x.type_params,
        ) || opt_has_infer(x.ret_ty),
        TypeElement::Property(x) => fn_params_have_infer(x.params) || opt_has_infer(x.type_ann)
            || decl_has_infer(x.type_params),
        TypeElement::Method(x) => fn_params_have_infer(x.params) || opt_has_infer(x.ret_ty)
            || decl_has_infer(x.type_params),
        TypeElement::Index(x) => fn_params_have_infer(x.params) || opt_has_infer(x.type_ann),
    }
}

/// Whether an inference position occurs in one of the members.
pub open spec fn elements_have_infer(l: List<TypeElement>) -> bool
    decreases l,
{
    match l {
        List::Nil => false,
        List::Cons(head, tail) => element_has_infer(*head) || elements_have_infer(*tail),
    }
}

/// Tells whether an inference position occurs anywhere in `t`.
pub fn contains_infer_type(t: &Type) -> (b: bool)
    ensures
        b == has_infer(*t),
    decreases *t,
{
    match t {
        Type::This(_) => false,
        Type::Lit(_) => false,
        Type::Query(x) => match &x.expr {
            QueryExpr::TsEntityName(_) => false,
            QueryExpr::Import(i) => import_contains_infer(i),
        },
        Type::Infer(_) => true,
        Type::Import(x) => import_contains_infer(x),
        Type::Predicate(x) => opt_contains_infer(&x.ty),
        Type::IndexedAccessType(x) => contains_infer_type(&x.obj_type) || contains_infer_type(
            &x.index_type,
        ),
        Type::Ref(x) => inst_contains_infer(&x.type_args),
        Type::TypeLit(x) => elements_contain_infer(&x.members),
        Type::Keyword(_) => false,
        Type::Conditional(x) => contains_infer_type(&x.check_type) || contains_infer_type(
            &x.extends_type,
        ) || contains_infer_type(&x.true_type) || contains_infer_type(&x.false_type),
        Type::Tuple(x) => tuple_elems_contain_infer(&x.elems),
        Type::Array(x) => contains_infer_type(&x.elem_type),
        Type::Union(x) => types_contain_infer(&x.types),
        Type::Intersection(x) => types_contain_infer(&x.types),
        Type::Function(x) => decl_contains_infer(&x.type_params) || fn_params_contain_infer(
            &x.params,
        ) || contains_infer_type(&x.ret_ty),
        Type::Constructor(x) => decl_contains_infer(&x.type_params) || fn_params_contain_infer(
            &x.params,
        ) || contains_infer_type(&x.type_ann),
        Type::Operator(x) => contains_infer_type(&x.ty),
        Type::Param(_) => false,
        Type::Interface(x) => decl_contains_infer(&x.type_params) || ts_exprs_contain_infer(
            &x.extends,
        ) || elements_contain_infer(&x.body),
        Type::Alias(x) => decl_contains_infer(&x.type_params) || contains_infer_type(&x.ty),
        Type::Mapped(x) => param_contains_infer(&x.type_param) || opt_contains_infer(&x.ty),
        Type::Rest(x) => contains_infer_type(&x.ty),
        Type::Optional(x) => contains_infer_type(&x.ty),
    }
}

fn types_contain_infer(l: &List<Type>) -> (b: bool)
    ensures
        b == types_have_infer(*l),
    decreases *l,
{
    match l {
        List::Nil => false,
        List::Cons(head, tail) => contains_infer_type(head) || types_contain_infer(tail),
    }
}

fn opt_contains_infer(o: &Option<Box<Type>>) -> (b: bool)
    ensures
        b == opt_has_infer(*o),
    decreases *o,
{
    match o {
        Some(t) => contains_infer_type(t),
        None => false,
    }
}

fn param_contains_infer(p: &TypeParam) -> (b: bool)
    ensures
        b == param_has_infer(*p),
    decreases *p,
{
    opt_contains_infer(&p.constraint) || opt_contains_infer(&p.default)
}

fn params_contain_infer(l: &List<TypeParam>) -> (b: bool)
    ensures
        b == params_have_infer(*l),
    decreases *l,
{
    match l {
        List::Nil => false,
        List::Cons(head, tail) => param_contains_infer(head) || params_contain_infer(tail),
    }
}

fn decl_contains_infer(o: &Option<TypeParamDecl>) -> (b: bool)
    ensures
        b == decl_has_infer(*o),
    decreases *o,
{
    match o {
        Some(d) => params_contain_infer(&d.params),
        None => false,
    }
}

fn inst_contains_infer(o: &Option<TypeParamInstantiation>) -> (b: bool)
    ensures
        b == inst_has_infer(*o),
    decreases *o,
{
    match o {
        Some(i) => types_contain_infer(&i.params),
        None => false,
    }
}

fn import_contains_infer(i: &ImportType) -> (b: bool)
    ensures
        b == import_has_infer(*i),
    decreases *i,
{
    inst_contains_infer(&i.type_params)
}

fn fn_params_contain_infer(l: &List<FnParam>) -> (b: bool)
    ensures
        b == fn_params_have_infer(*l),
    decreases *l,
{
    match l {
        List::Nil => false,
        List::Cons(head, tail) => contains_infer_type(&head.ty) || fn_params_contain_infer(tail),
    }
}

fn tuple_elems_contain_infer(l: &List<TupleElement>) -> (b: bool)
    ensures
        b == tuple_elems_have_infer(*l),
    decreases *l,
{
    match l {
        List::Nil => false,
        List::Cons(head, tail) => contains_infer_type(&head.ty) || tuple_elems_contain_infer(
            tail,
        ),
    }
}

fn ts_exprs_contain_infer(l: &List<TsExpr>) -> (b: bool)
    ensures
        b == ts_exprs_have_infer(*l),
    decreases *l,
{
    match l {
        List::Nil => false,
        List::Cons(head, tail) => inst_contains_infer(&head.type_args) || ts_exprs_contain_infer(
            tail,
        ),
    }
}

fn element_contains_infer(e: &TypeElement) -> (b: bool)
    ensures
        b == element_has_infer(*e),
    decreases *e,
{
    match e {
        TypeElement::Call(x) => fn_params_contain_infer(&x.params) || decl_contains_infer(
            &x.type_params,
        ) || opt_contains_infer(&x.ret_ty),
        TypeElement::Constructor(x) => fn_params_contain_infer(&x.params) || decl_contains_infer(
            &x.type_params,
        ) || opt_contains_infer(&x.ret_ty),
        TypeElement::Property(x) => fn_params_contain_infer(&x.params) || opt_contains_infer(
            &x.type_ann,
        ) || decl_contains_infer(&x.type_params),
        TypeElement::Method(x) => fn_params_contain_infer(&x.params) || opt_contains_infer(
            &x.ret_ty,
        ) || decl_contains_infer(&x.type_params),
        TypeElement::Index(x) => fn_params_contain_infer(&x.params) || opt_contains_infer(
            &x.type_ann,
        ),
    }
}

fn elements_contain_infer(l: &List<TypeElement>) -> (b: bool)
    ensures
        b == elements_have_infer(*l),
    decreases *l,
{
    match l {
        List::Nil => false,
        List::Cons(head, tail) => element_contains_infer(head) || elements_contain_infer(tail),
    }
}

} // verus!
