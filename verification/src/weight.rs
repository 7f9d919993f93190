//! How much there is to lower in a piece of syntax.
//!
//! Lowering a function type first gives its parameters implicit annotations
//! and then lowers them, so the syntax it walks grows while it works. The
//! weight of a parameter counts the annotation that it will be given as if
//! it were already there. Defaulting therefore leaves every weight as it is,
//! and each step of lowering goes to something lighter.
//!
//! The weights are opaque: a proof that needs the definition of one reveals
//! it, together with the weights that it is made of.

use vstd::prelude::*;
use crate::ast::{
    ArrayPat, ObjectPat, ObjectPatProp, Pat, TsArrayType, TsCallSignatureDecl, TsConditionalType,
    TsConstructSignatureDecl, TsConstructorType, TsExprWithTypeArgs, TsFnOrConstructorType,
    TsFnParam, TsFnType, TsImportType, TsIndexSignature, TsIndexedAccessType, TsInferType,
    TsInterfaceBody, TsInterfaceDecl, TsIntersectionType, TsMappedType, TsMethodSignature,
    TsOptionalType, TsParenthesizedType, TsPropertySignature, TsRestType, TsTupleElement,
    TsTupleType, TsType, TsTypeAliasDecl, TsTypeAnn, TsTypeElement, TsTypeLit, TsTypeOperator,
    TsTypeParam, TsTypeParamDecl, TsTypeParamInstantiation, TsTypePredicate, TsTypeQuery,
    TsTypeQueryExpr, TsTypeRef, TsUnionOrIntersectionType, TsUnionType,
};
use crate::default_any::{
    defaulted_array, defaulted_object, defaulted_param, defaulted_params, elem_type, elem_types,
    member_type, prop_member, prop_members,
};
use crate::list::List;
use crate::span::Mark;

verus! {

/// The weight of a type.
#[verifier::opaque]
pub open spec fn w_type(t: TsType) -> nat
    decreases t,
{
    match t {
        TsType::TsKeywordType(_) => 1,
        TsType::TsThisType(_) => 1,
        TsType::TsFnOrConstructorType(TsFnOrConstructorType::TsFnType(x)) => 1 + w_fn_type(x),
        TsType::TsFnOrConstructorType(TsFnOrConstructorType::TsConstructorType(x)) => 1
            + w_ctor_type(x),
        TsType::TsTypeRef(x) => 1 + w_type_ref(x),
        TsType::TsTypeQuery(x) => 1 + w_query(x),
        TsType::TsTypeLit(x) => 1 + w_type_lit(x),
        TsType::TsArrayType(x) => 1 + w_array(x),
        TsType::TsTupleType(x) => 1 + w_tuple(x),
        TsType::TsOptionalType(x) => 1 + w_optional(x),
        TsType::TsRestType(x) => 1 + w_rest(x),
        TsType::TsUnionOrIntersectionType(TsUnionOrIntersectionType::TsUnionType(x)) => 1
            + w_union(x),
        TsType::TsUnionOrIntersectionType(TsUnionOrIntersectionType::TsIntersectionType(x)) => 1
            + w_intersection(x),
        TsType::TsConditionalType(x) => 1 + w_conditional(x),
        TsType::TsInferType(x) => 1 + w_infer(x),
        TsType::TsParenthesizedType(x) => 1 + w_paren(x),
        TsType::TsTypeOperator(x) => 1 + w_operator(x),
        TsType::TsIndexedAccessType(x) => 1 + w_indexed(x),
        TsType::TsMappedType(x) => 1 + w_mapped(x),
        TsType::TsLitType(_) => 1,
        TsType::TsTypePredicate(x) => 1 + w_predicate(x),
        TsType::TsImportType(x) => 1 + w_import(x),
    }
}

/// The weight of a list of types.
#[verifier::opaque]
pub open spec fn w_types(l: List<TsType>) -> nat
    decreases l,
{
    match l {
        List::Nil => 0,
        List::Cons(head, tail) => 1 + w_type(*head) + w_types(*tail),
    }
}

/// The weight of a type that may be missing.
#[verifier::opaque]
pub open spec fn w_opt_type(o: Option<Box<TsType>>) -> nat
    decreases o,
{
    match o {
        Some(t) => 1 + w_type(*t),
        None => 0,
    }
}

/// The weight of an annotation.
#[verifier::opaque]
pub open spec fn w_ann(a: TsTypeAnn) -> nat
    decreases a,
{
    1 + w_type(*a.type_ann)
}

/// The weight of an annotation that may be missing.
#[verifier::opaque]
pub open spec fn w_opt_ann(o: Option<TsTypeAnn>) -> nat
    decreases o,
{
    match o {
        Some(a) => 1 + w_ann(a),
        None => 0,
    }
}

/// The weight of a type parameter.
#[verifier::opaque]
pub open spec fn w_tparam(p: TsTypeParam) -> nat
    decreases p,
{
    1 + w_opt_type(p.constraint) + w_opt_type(p.default)
}

/// The weight of a list of type parameters.
#[verifier::opaque]
pub open spec fn w_tparams(l: List<TsTypeParam>) -> nat
    decreases l,
{
    match l {
        List::Nil => 0,
        List::Cons(head, tail) => 1 + w_tparam(*head) + w_tparams(*tail),
    }
}

/// The weight of a type parameter declaration.
#[verifier::opaque]
pub open spec fn w_decl(d: TsTypeParamDecl) -> nat
    decreases d,
{
    1 + w_tparams(d.params)
}

/// The weight of a type parameter declaration that may be missing.
#[verifier::opaque]
pub open spec fn w_opt_decl(o: Option<TsTypeParamDecl>) -> nat
    decreases o,
{
    match o {
        Some(d) => 1 + w_decl(d),
        None => 0,
    }
}

/// The weight of a list of type arguments.
#[verifier::opaque]
pub open spec fn w_inst(i: TsTypeParamInstantiation) -> nat
    decreases i,
{
    1 + w_types(i.params)
}

/// The weight of a list of type arguments that may be missing.
#[verifier::opaque]
pub open spec fn w_opt_inst(o: Option<TsTypeParamInstantiation>) -> nat
    decreases o,
{
    match o {
        Some(i) => 1 + w_inst(i),
        None => 0,
    }
}

/// The weight of the type that an array pattern has once defaulted.
#[verifier::opaque]
pub open spec fn w_array_pat(a: ArrayPat) -> nat
    decreases a,
{
    match a.type_ann {
        Some(ann) => w_type(*ann.type_ann),
        None => 2 + w_pat_elems(a.elems),
    }
}

/// The weight of the tuple elements that the elements of an array pattern give.
#[verifier::opaque]
pub open spec fn w_pat_elems(l: List<Option<Pat>>) -> nat
    decreases l,
{
    match l {
        List::Nil => 0,
        List::Cons(head, tail) => 2 + w_pat_elem(*head) + w_pat_elems(*tail),
    }
}

/// The weight of the type that one element of an array pattern gives.
#[verifier::opaque]
pub open spec fn w_pat_elem(e: Option<Pat>) -> nat
    decreases e,
{
    match e {
        Some(Pat::Array(a)) => w_array_pat(a),
        Some(Pat::Object(o)) => w_object_pat(o),
        _ => 1,
    }
}

/// The weight of the type that an object pattern has once defaulted.
#[verifier::opaque]
pub open spec fn w_object_pat(o: ObjectPat) -> nat
    decreases o,
{
    match o.type_ann {
        Some(ann) => w_type(*ann.type_ann),
        None => 2 + w_pat_props(o.props),
    }
}

/// The weight of the members that the properties of an object pattern give.
#[verifier::opaque]
pub open spec fn w_pat_props(l: List<ObjectPatProp>) -> nat
    decreases l,
{
    match l {
        List::Nil => 0,
        List::Cons(head, tail) => w_pat_prop(*head) + w_pat_props(*tail),
    }
}

/// The weight of the member that one property of an object pattern gives.
#[verifier::opaque]
pub open spec fn w_pat_prop(p: ObjectPatProp) -> nat
    decreases p,
{
    match p {
        ObjectPatProp::KeyValue(kv) => 3 + w_pat_value(*kv.value),
        ObjectPatProp::Assign(_) => 3,
        ObjectPatProp::Rest(_) => 0,
    }
}

/// The weight of the annotation that the value pattern of a property hands
/// to its member.
#[verifier::opaque]
pub open spec fn w_pat_value(p: Pat) -> nat
    decreases p,
{
    match p {
        Pat::Ident(b) => match b.type_ann {
            Some(ann) => 2 + w_type(*ann.type_ann),
            None => 0,
        },
        Pat::Array(a) => 2 + w_array_pat(a),
        Pat::Rest(r) => match r.type_ann {
            Some(ann) => 2 + w_type(*ann.type_ann),
            None => 0,
        },
        Pat::Object(o) => 2 + w_object_pat(o),
        Pat::Assign(_) => 0,
        Pat::Invalid(_) => 0,
        Pat::Expr(_) => 0,
    }
}

/// The weight of a parameter, its implicit annotation counted where it has none.
#[verifier::opaque]
pub open spec fn w_fn_param(p: TsFnParam) -> nat
    decreases p,
{
    match p {
        TsFnParam::Ident(b) => match b.type_ann {
            Some(ann) => 2 + w_ann(ann),
            None => 4,
        },
        TsFnParam::Array(a) => 3 + w_array_pat(a),
        TsFnParam::Rest(r) => 1 + w_opt_ann(r.type_ann),
        TsFnParam::Object(o) => 3 + w_object_pat(o),
    }
}

/// The weight of a list of parameters.
#[verifier::opaque]
pub open spec fn w_fn_params(l: List<TsFnParam>) -> nat
    decreases l,
{
    match l {
        List::Nil => 0,
        List::Cons(head, tail) => 1 + w_fn_param(*head) + w_fn_params(*tail),
    }
}

/// The weight of a call signature.
#[verifier::opaque]
pub open spec fn w_call_sig(d: TsCallSignatureDecl) -> nat
    decreases d,
{
    1 + w_fn_params(d.params) + w_opt_ann(d.type_ann) + w_opt_decl(d.type_params)
}

/// The weight of a construct signature.
#[verifier::opaque]
pub open spec fn w_construct_sig(d: TsConstructSignatureDecl) -> nat
    decreases d,
{
    1 + w_fn_params(d.params) + w_opt_ann(d.type_ann) + w_opt_decl(d.type_params)
}

/// The weight of a property signature.
#[verifier::opaque]
pub open spec fn w_property_sig(d: TsPropertySignature) -> nat
    decreases d,
{
    1 + w_fn_params(d.params) + w_opt_ann(d.type_ann) + w_opt_decl(d.type_params)
}

/// The weight of a method signature.
#[verifier::opaque]
pub open spec fn w_method_sig(d: TsMethodSignature) -> nat
    decreases d,
{
    1 + w_fn_params(d.params) + w_opt_ann(d.type_ann) + w_opt_decl(d.type_params)
}

/// The weight of an index signature.
#[verifier::opaque]
pub open spec fn w_index_sig(d: TsIndexSignature) -> nat
    decreases d,
{
    1 + w_fn_params(d.params) + w_opt_ann(d.type_ann)
}

/// The weight of a member.
#[verifier::opaque]
pub open spec fn w_element(e: TsTypeElement) -> nat
    decreases e,
{
    match e {
        TsTypeElement::TsCallSignatureDecl(d) => 1 + w_call_sig(d),
        TsTypeElement::TsConstructSignatureDecl(d) => 1 + w_construct_sig(d),
        TsTypeElement::TsPropertySignature(d) => 1 + w_property_sig(d),
        TsTypeElement::TsMethodSignature(d) => 1 + w_method_sig(d),
        TsTypeElement::TsIndexSignature(d) => 1 + w_index_sig(d),
    }
}

/// The weight of a list of members.
#[verifier::opaque]
pub open spec fn w_elements(l: List<TsTypeElement>) -> nat
    decreases l,
{
    match l {
        List::Nil => 0,
        List::Cons(head, tail) => 1 + w_element(*head) + w_elements(*tail),
    }
}

/// The weight of a function type.
#[verifier::opaque]
pub open spec fn w_fn_type(t: TsFnType) -> nat
    decreases t,
{
    1 + w_fn_params(t.params) + w_opt_decl(t.type_params) + w_ann(t.type_ann)
}

/// The weight of a constructor type.
#[verifier::opaque]
pub open spec fn w_ctor_type(t: TsConstructorType) -> nat
    decreases t,
{
    1 + w_fn_params(t.params) + w_opt_decl(t.type_params) + w_ann(t.type_ann)
}

/// The weight of a type reference.
#[verifier::opaque]
pub open spec fn w_type_ref(t: TsTypeRef) -> nat
    decreases t,
{
    1 + w_opt_inst(t.type_params)
}

/// The weight of a type predicate.
#[verifier::opaque]
pub open spec fn w_predicate(t: TsTypePredicate) -> nat
    decreases t,
{
    1 + w_opt_ann(t.type_ann)
}

/// The weight of an import type.
#[verifier::opaque]
pub open spec fn w_import(t: TsImportType) -> nat
    decreases t,
{
    1 + w_opt_inst(t.type_args)
}

/// The weight of what a type query asks the type of.
#[verifier::opaque]
pub open spec fn w_query_expr(t: TsTypeQueryExpr) -> nat
    decreases t,
{
    match t {
        TsTypeQueryExpr::TsEntityName(_) => 1,
        TsTypeQueryExpr::Import(i) => 1 + w_import(i),
    }
}

/// The weight of a type query.
#[verifier::opaque]
pub open spec fn w_query(t: TsTypeQuery) -> nat
    decreases t,
{
    1 + w_query_expr(t.expr_name)
}

/// The weight of a type literal.
#[verifier::opaque]
pub open spec fn w_type_lit(t: TsTypeLit) -> nat
    decreases t,
{
    1 + w_elements(t.members)
}

/// The weight of an array type.
#[verifier::opaque]
pub open spec fn w_array(t: TsArrayType) -> nat
    decreases t,
{
    1 + w_type(*t.elem_type)
}

/// The weight of one element of a tuple type.
#[verifier::opaque]
pub open spec fn w_tuple_elem(t: TsTupleElement) -> nat
    decreases t,
{
    1 + w_type(t.ty)
}

/// The weight of the elements of a tuple type.
#[verifier::opaque]
pub open spec fn w_tuple_elems(l: List<TsTupleElement>) -> nat
    decreases l,
{
    match l {
        List::Nil => 0,
        List::Cons(head, tail) => 1 + w_tuple_elem(*head) + w_tuple_elems(*tail),
    }
}

/// The weight of a tuple type.
#[verifier::opaque]
pub open spec fn w_tuple(t: TsTupleType) -> nat
    decreases t,
{
    1 + w_tuple_elems(t.elem_types)
}

/// The weight of an optional type.
#[verifier::opaque]
pub open spec fn w_optional(t: TsOptionalType) -> nat
    decreases t,
{
    1 + w_type(*t.type_ann)
}

/// The weight of a rest type.
#[verifier::opaque]
pub open spec fn w_rest(t: TsRestType) -> nat
    decreases t,
{
    1 + w_type(*t.type_ann)
}

/// The weight of a union type.
#[verifier::opaque]
pub open spec fn w_union(t: TsUnionType) -> nat
    decreases t,
{
    1 + w_types(t.types)
}

/// The weight of an intersection type.
#[verifier::opaque]
pub open spec fn w_intersection(t: TsIntersectionType) -> nat
    decreases t,
{
    1 + w_types(t.types)
}

/// The weight of a conditional type.
#[verifier::opaque]
pub open spec fn w_conditional(t: TsConditionalType) -> nat
    decreases t,
{
    1 + w_type(*t.check_type) + w_type(*t.extends_type) + w_type(*t.true_type) + w_type(
        *t.false_type,
    )
}

/// The weight of an inference position.
#[verifier::opaque]
pub open spec fn w_infer(t: TsInferType) -> nat
    decreases t,
{
    1 + w_tparam(t.type_param)
}

/// The weight of a type in parentheses.
#[verifier::opaque]
pub open spec fn w_paren(t: TsParenthesizedType) -> nat
    decreases t,
{
    1 + w_type(*t.type_ann)
}

/// The weight of a type operator.
#[verifier::opaque]
pub open spec fn w_operator(t: TsTypeOperator) -> nat
    decreases t,
{
    1 + w_type(*t.type_ann)
}

/// The weight of an indexed access type.
#[verifier::opaque]
pub open spec fn w_indexed(t: TsIndexedAccessType) -> nat
    decreases t,
{
    1 + w_type(*t.obj_type) + w_type(*t.index_type)
}

/// The weight of a mapped type.
#[verifier::opaque]
pub open spec fn w_mapped(t: TsMappedType) -> nat
    decreases t,
{
    1 + w_tparam(t.type_param) + w_opt_type(t.type_ann)
}

/// The weight of the parents of an interface.
pub open spec fn w_extends(l: List<TsExprWithTypeArgs>) -> nat
    decreases l,
{
    match l {
        List::Nil => 0,
        List::Cons(head, tail) => w_opt_inst(head.type_args) + w_extends(*tail),
    }
}

/// The weight of an interface declaration.
pub open spec fn w_interface(d: TsInterfaceDecl) -> nat {
    w_opt_decl(d.type_params) + w_extends(d.extends) + w_elements(d.body.body)
}

/// The weight of a type alias declaration.
pub open spec fn w_alias(d: TsTypeAliasDecl) -> nat {
    w_opt_decl(d.type_params) + w_type(*d.type_ann)
}

/// The type that defaulting gives an array pattern weighs what the pattern
/// was counted for.
pub proof fn defaulted_array_weight(mark: Mark, a: ArrayPat)
    ensures
        defaulted_array(mark, a).type_ann is Some,
        w_type(*defaulted_array(mark, a).type_ann->Some_0.type_ann) == w_array_pat(a),
    decreases a,
{
    reveal(w_type);
    reveal(w_tuple);
    reveal(w_tuple_elems);
    reveal(w_tuple_elem);
    reveal(w_type_lit);
    reveal(w_elements);
    reveal(w_element);
    reveal(w_property_sig);
    reveal(w_fn_params);
    reveal(w_opt_ann);
    reveal(w_ann);
    reveal(w_opt_decl);
    reveal(w_array_pat);
    reveal(w_pat_elems);
    reveal(w_pat_elem);
    reveal(w_object_pat);
    reveal(w_pat_props);
    reveal(w_pat_prop);
    reveal(w_pat_value);
    reveal(w_fn_param);
    if a.type_ann is None {
        elem_types_weight(mark, a.elems);
    }
}

proof fn elem_types_weight(mark: Mark, elems: List<Option<Pat>>)
    ensures
        w_tuple_elems(elem_types(mark, elems)) == w_pat_elems(elems),
    decreases elems,
{
    reveal(w_type);
    reveal(w_tuple);
    reveal(w_tuple_elems);
    reveal(w_tuple_elem);
    reveal(w_type_lit);
    reveal(w_elements);
    reveal(w_element);
    reveal(w_property_sig);
    reveal(w_fn_params);
    reveal(w_opt_ann);
    reveal(w_ann);
    reveal(w_opt_decl);
    reveal(w_array_pat);
    reveal(w_pat_elems);
    reveal(w_pat_elem);
    reveal(w_object_pat);
    reveal(w_pat_props);
    reveal(w_pat_prop);
    reveal(w_pat_value);
    reveal(w_fn_param);
    match elems {
        List::Nil => {},
        List::Cons(head, tail) => {
            match *head {
                Some(Pat::Array(a)) => defaulted_array_weight(mark, a),
                Some(Pat::Object(o)) => defaulted_object_weight(mark, o),
                _ => {},
            }
            assert(w_tuple_elem(elem_type(mark, *head)) == 1 + w_pat_elem(*head));
            elem_types_weight(mark, *tail);
        },
    }
}

/// The type that defaulting gives an object pattern weighs what the pattern
/// was counted for.
pub proof fn defaulted_object_weight(mark: Mark, o: ObjectPat)
    ensures
        defaulted_object(mark, o).type_ann is Some,
        w_type(*defaulted_object(mark, o).type_ann->Some_0.type_ann) == w_object_pat(o),
    decreases o,
{
    reveal(w_type);
    reveal(w_tuple);
    reveal(w_tuple_elems);
    reveal(w_tuple_elem);
    reveal(w_type_lit);
    reveal(w_elements);
    reveal(w_element);
    reveal(w_property_sig);
    reveal(w_fn_params);
    reveal(w_opt_ann);
    reveal(w_ann);
    reveal(w_opt_decl);
    reveal(w_array_pat);
    reveal(w_pat_elems);
    reveal(w_pat_elem);
    reveal(w_object_pat);
    reveal(w_pat_props);
    reveal(w_pat_prop);
    reveal(w_pat_value);
    reveal(w_fn_param);
    if o.type_ann is None {
        prop_members_weight(mark, o.props);
    }
}

proof fn prop_members_weight(mark: Mark, props: List<ObjectPatProp>)
    ensures
        w_elements(prop_members(mark, props)) == w_pat_props(props),
    decreases props,
{
    reveal(w_type);
    reveal(w_tuple);
    reveal(w_tuple_elems);
    reveal(w_tuple_elem);
    reveal(w_type_lit);
    reveal(w_elements);
    reveal(w_element);
    reveal(w_property_sig);
    reveal(w_fn_params);
    reveal(w_opt_ann);
    reveal(w_ann);
    reveal(w_opt_decl);
    reveal(w_array_pat);
    reveal(w_pat_elems);
    reveal(w_pat_elem);
    reveal(w_object_pat);
    reveal(w_pat_props);
    reveal(w_pat_prop);
    reveal(w_pat_value);
    reveal(w_fn_param);
    match props {
        List::Nil => {},
        List::Cons(head, tail) => {
            match *head {
                ObjectPatProp::KeyValue(kv) => {
                    match *kv.value {
                        Pat::Array(a) => defaulted_array_weight(mark, a),
                        Pat::Object(o) => defaulted_object_weight(mark, o),
                        _ => {},
                    }
                    assert(w_opt_ann(member_type(mark, *kv.value)) == w_pat_value(*kv.value));
                    assert(w_element(prop_member(mark, *head)->Some_0) == 2 + w_pat_value(
                        *kv.value,
                    ));
                },
                ObjectPatProp::Assign(_) => {
                    assert(w_element(prop_member(mark, *head)->Some_0) == 2);
                },
                ObjectPatProp::Rest(_) => {},
            }
            prop_members_weight(mark, *tail);
            match prop_member(mark, *head) {
                Some(member) => {
                    assert(prop_members(mark, props) == List::Cons(
                        Box::new(member),
                        Box::new(prop_members(mark, *tail)),
                    ));
                    assert(w_elements(prop_members(mark, props)) == 1 + w_element(member)
                        + w_elements(prop_members(mark, *tail)));
                },
                None => {
                    assert(prop_members(mark, props) == prop_members(mark, *tail));
                },
            }
            assert(w_pat_props(props) == w_pat_prop(*head) + w_pat_props(*tail));
        },
    }
}

/// Defaulting a parameter leaves its weight as it is.
pub proof fn defaulted_param_weight(mark: Mark, p: TsFnParam)
    ensures
        w_fn_param(defaulted_param(mark, p)) == w_fn_param(p),
{
    reveal(w_type);
    reveal(w_tuple);
    reveal(w_tuple_elems);
    reveal(w_tuple_elem);
    reveal(w_type_lit);
    reveal(w_elements);
    reveal(w_element);
    reveal(w_property_sig);
    reveal(w_fn_params);
    reveal(w_opt_ann);
    reveal(w_ann);
    reveal(w_opt_decl);
    reveal(w_array_pat);
    reveal(w_pat_elems);
    reveal(w_pat_elem);
    reveal(w_object_pat);
    reveal(w_pat_props);
    reveal(w_pat_prop);
    reveal(w_pat_value);
    reveal(w_fn_param);
    match p {
        TsFnParam::Array(a) => defaulted_array_weight(mark, a),
        TsFnParam::Object(o) => defaulted_object_weight(mark, o),
        _ => {},
    }
}

/// Defaulting a parameter list leaves its weight as it is.
pub proof fn defaulted_params_weight(mark: Mark, ps: List<TsFnParam>)
    ensures
        w_fn_params(defaulted_params(mark, ps)) == w_fn_params(ps),
    decreases ps,
{
    reveal(w_type);
    reveal(w_tuple);
    reveal(w_tuple_elems);
    reveal(w_tuple_elem);
    reveal(w_type_lit);
    reveal(w_elements);
    reveal(w_element);
    reveal(w_property_sig);
    reveal(w_fn_params);
    reveal(w_opt_ann);
    reveal(w_ann);
    reveal(w_opt_decl);
    reveal(w_array_pat);
    reveal(w_pat_elems);
    reveal(w_pat_elem);
    reveal(w_object_pat);
    reveal(w_pat_props);
    reveal(w_pat_prop);
    reveal(w_pat_value);
    reveal(w_fn_param);
    match ps {
        List::Nil => {},
        List::Cons(head, tail) => {
            defaulted_param_weight(mark, *head);
            defaulted_params_weight(mark, *tail);
        },
    }
}

/// The annotation of a parameter weighs less than the parameter.
pub proof fn annotation_is_lighter(p: TsFnParam)
    ensures
        w_opt_ann(crate::lower::ann_of(p)) < w_fn_param(p),
{
    reveal(w_type);
    reveal(w_tuple);
    reveal(w_tuple_elems);
    reveal(w_tuple_elem);
    reveal(w_type_lit);
    reveal(w_elements);
    reveal(w_element);
    reveal(w_property_sig);
    reveal(w_fn_params);
    reveal(w_opt_ann);
    reveal(w_ann);
    reveal(w_opt_decl);
    reveal(w_array_pat);
    reveal(w_pat_elems);
    reveal(w_pat_elem);
    reveal(w_object_pat);
    reveal(w_pat_props);
    reveal(w_pat_prop);
    reveal(w_pat_value);
    reveal(w_fn_param);
    match p {
        TsFnParam::Ident(b) => {
            if let Some(ann) = b.type_ann {
                assert(w_opt_ann(b.type_ann) == 1 + w_ann(ann));
            }
        },
        TsFnParam::Array(a) => {
            if let Some(ann) = a.type_ann {
                assert(w_opt_ann(a.type_ann) == 1 + w_ann(ann));
                assert(w_ann(ann) == 1 + w_type(*ann.type_ann));
                assert(w_array_pat(a) == w_type(*ann.type_ann));
            }
        },
        TsFnParam::Rest(r) => {},
        TsFnParam::Object(o) => {
            if let Some(ann) = o.type_ann {
                assert(w_opt_ann(o.type_ann) == 1 + w_ann(ann));
                assert(w_ann(ann) == 1 + w_type(*ann.type_ann));
                assert(w_object_pat(o) == w_type(*ann.type_ann));
            }
        },
    }
}

/// A list of type parameters weighs at least as much as it is long.
pub proof fn parameters_weigh_their_number(l: List<TsTypeParam>)
    ensures
        l.len() <= w_tparams(l),
    decreases l,
{
    reveal(w_tparams);
    match l {
        List::Nil => {},
        List::Cons(_, tail) => parameters_weigh_their_number(*tail),
    }
}

} // verus!
