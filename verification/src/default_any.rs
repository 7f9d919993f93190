//! Implicit annotations for the parameters of function types.
//!
//! A parameter pattern without an annotation gets one before the parameter
//! list is lowered: `any` for an identifier, a tuple for an array pattern, a
//! type literal for an object pattern. Annotations made here carry the
//! caller's mark, so that later passes can tell them from written ones.

use vstd::prelude::*;
use crate::ast::{
    any_keyword, ArrayPat, BindingIdent, ObjectPat, ObjectPatProp, Pat, TsFnParam, TsKeywordType,
    TsKeywordTypeKind, TsPropertySignature, TsTupleElement, TsTupleType, TsType, TsTypeAnn,
    TsTypeElement, TsTypeLit,
};
use crate::expr::{key_expr, prop_name_to_expr, Expr};
use crate::ident::Ident;
use crate::list::List;
use crate::span::{dummy_sp, marks_accumulate, Mark, Span};

verus! {

/// Where a pattern stands in the source.
pub open spec fn pat_span(p: Pat) -> Span {
    match p {
        Pat::Ident(b) => b.id.span,
        Pat::Array(a) => a.span,
        Pat::Rest(r) => r.span,
        Pat::Object(o) => o.span,
        Pat::Assign(a) => a.span,
        Pat::Invalid(i) => i.span,
        Pat::Expr(e) => e.span_of(),
    }
}

/// The annotation that a pattern carries, if its kind can carry one and it
/// does.
pub open spec fn pat_ty(p: Pat) -> Option<TsTypeAnn> {
    match p {
        Pat::Ident(b) => b.type_ann,
        Pat::Array(a) => a.type_ann,
        Pat::Rest(r) => r.type_ann,
        Pat::Object(o) => o.type_ann,
        Pat::Assign(_) => None,
        Pat::Invalid(_) => None,
        Pat::Expr(_) => None,
    }
}

/// The pattern without its own annotation.
pub open spec fn pat_without_ty(p: Pat) -> Pat {
    match p {
        Pat::Ident(b) => Pat::Ident(BindingIdent { type_ann: None, ..b }),
        Pat::Array(a) => Pat::Array(ArrayPat { type_ann: None, ..a }),
        Pat::Rest(r) => Pat::Rest(crate::ast::RestPat { type_ann: None, ..r }),
        Pat::Object(o) => Pat::Object(ObjectPat { type_ann: None, ..o }),
        Pat::Assign(a) => Pat::Assign(a),
        Pat::Invalid(i) => Pat::Invalid(i),
        Pat::Expr(e) => Pat::Expr(e),
    }
}

/// The annotation that stands for a missing one on an identifier: `any`,
/// marked as implicit.
pub open spec fn implicit_any(implicit_type_mark: Mark) -> TsTypeAnn {
    TsTypeAnn {
        span: dummy_sp().marked(implicit_type_mark),
        type_ann: Box::new(any_keyword(dummy_sp().marked(implicit_type_mark))),
    }
}

/// An identifier after defaulting: one with an annotation keeps it, one
/// without gets `any`.
pub open spec fn defaulted_ident(implicit_type_mark: Mark, i: BindingIdent) -> BindingIdent {
    if i.type_ann is Some {
        i
    } else {
        BindingIdent { type_ann: Some(implicit_any(implicit_type_mark)), ..i }
    }
}

/// One element of an array pattern after its type was moved into the tuple:
/// a nested array or object pattern is defaulted and loses its annotation;
/// anything else stays as it is.
pub open spec fn consumed_elem(implicit_type_mark: Mark, elem: Option<Pat>) -> Option<Pat>
    decreases elem, 0nat,
{
    match elem {
        Some(Pat::Array(a)) => Some(
            Pat::Array(ArrayPat { type_ann: None, ..defaulted_array(implicit_type_mark, a) }),
        ),
        Some(Pat::Object(o)) => Some(
            Pat::Object(ObjectPat { type_ann: None, ..defaulted_object(implicit_type_mark, o) }),
        ),
        other => other,
    }
}

/// The tuple element that stands for one element of an array pattern: the
/// type of a nested array or object pattern after defaulting, `any` for
/// anything else and for a hole. No element is labelled.
pub open spec fn elem_type(implicit_type_mark: Mark, elem: Option<Pat>) -> TsTupleElement
    decreases elem, 0nat,
{
    TsTupleElement {
        span: match elem {
            Some(p) => pat_span(p),
            None => dummy_sp(),
        },
        label: None,
        ty: match elem {
            Some(Pat::Array(a)) => *defaulted_array(
                implicit_type_mark,
                a,
            ).type_ann->Some_0.type_ann,
            Some(Pat::Object(o)) => *defaulted_object(
                implicit_type_mark,
                o,
            ).type_ann->Some_0.type_ann,
            _ => any_keyword(dummy_sp()),
        },
    }
}

/// The elements of an array pattern after their types were moved out.
pub open spec fn consumed_elems(implicit_type_mark: Mark, elems: List<Option<Pat>>) -> List<
    Option<Pat>,
>
    decreases elems,
{
    match elems {
        List::Nil => List::Nil,
        List::Cons(head, tail) => List::Cons(
            Box::new(consumed_elem(implicit_type_mark, *head)),
            Box::new(consumed_elems(implicit_type_mark, *tail)),
        ),
    }
}

/// The tuple elements for the elements of an array pattern, one for each,
/// in order.
pub open spec fn elem_types(implicit_type_mark: Mark, elems: List<Option<Pat>>) -> List<
    TsTupleElement,
>
    decreases elems,
{
    match elems {
        List::Nil => List::Nil,
        List::Cons(head, tail) => List::Cons(
            Box::new(elem_type(implicit_type_mark, *head)),
            Box::new(elem_types(implicit_type_mark, *tail)),
        ),
    }
}

/// An array pattern after defaulting: one with an annotation is untouched;
/// one without gets a tuple type with one element for each element of the
/// pattern. The annotation stands where the pattern stands and is marked as
/// implicit.
pub open spec fn defaulted_array(implicit_type_mark: Mark, arr: ArrayPat) -> ArrayPat
    decreases arr,
{
    if arr.type_ann is Some {
        arr
    } else {
        ArrayPat {
            span: arr.span,
            elems: consumed_elems(implicit_type_mark, arr.elems),
            optional: arr.optional,
            type_ann: Some(
                TsTypeAnn {
                    span: arr.span.marked(implicit_type_mark),
                    type_ann: Box::new(
                        TsType::TsTupleType(
                            TsTupleType {
                                span: dummy_sp(),
                                elem_types: elem_types(implicit_type_mark, arr.elems),
                            },
                        ),
                    ),
                },
            ),
        }
    }
}

/// The property signature that stands for a property of an object pattern:
/// plain, with the given key and type.
pub open spec fn implicit_member(key: Expr, type_ann: Option<TsTypeAnn>) -> TsTypeElement {
    TsTypeElement::TsPropertySignature(
        TsPropertySignature {
            span: dummy_sp(),
            readonly: false,
            key: Box::new(key),
            computed: false,
            optional: false,
            init: None,
            params: List::Nil,
            type_ann,
            type_params: None,
        },
    )
}

/// The value pattern of a `key: value` property after the recursion: a
/// nested array or object pattern is defaulted, anything else stays.
pub open spec fn nested_defaulted(implicit_type_mark: Mark, value: Pat) -> Pat
    decreases value, 0nat,
{
    match value {
        Pat::Array(a) => Pat::Array(defaulted_array(implicit_type_mark, a)),
        Pat::Object(o) => Pat::Object(defaulted_object(implicit_type_mark, o)),
        other => other,
    }
}

/// The type that a `key: value` property contributes: that of the value
/// pattern after the recursion, under a fresh annotation; none where the
/// value pattern has no type.
pub open spec fn member_type(implicit_type_mark: Mark, value: Pat) -> Option<TsTypeAnn>
    decreases value, 1nat,
{
    match pat_ty(nested_defaulted(implicit_type_mark, value)) {
        Some(ann) => Some(TsTypeAnn { span: dummy_sp(), type_ann: ann.type_ann }),
        None => None,
    }
}

/// One property of an object pattern after its type was moved into the
/// type literal.
pub open spec fn consumed_prop(implicit_type_mark: Mark, prop: ObjectPatProp) -> ObjectPatProp
    decreases prop,
{
    match prop {
        ObjectPatProp::KeyValue(p) => ObjectPatProp::KeyValue(
            crate::ast::KeyValuePatProp {
                key: p.key,
                value: Box::new(pat_without_ty(nested_defaulted(implicit_type_mark, *p.value))),
            },
        ),
        other => other,
    }
}

/// The properties of an object pattern after their types were moved out.
pub open spec fn consumed_props(implicit_type_mark: Mark, props: List<ObjectPatProp>) -> List<
    ObjectPatProp,
>
    decreases props,
{
    match props {
        List::Nil => List::Nil,
        List::Cons(head, tail) => List::Cons(
            Box::new(consumed_prop(implicit_type_mark, *head)),
            Box::new(consumed_props(implicit_type_mark, *tail)),
        ),
    }
}

/// The member that one property of an object pattern contributes: a property
/// signature for a `key: value` and for a shorthand property, the latter
/// without a type; none for a rest property.
pub open spec fn prop_member(implicit_type_mark: Mark, prop: ObjectPatProp) -> Option<
    TsTypeElement,
>
    decreases prop,
{
    match prop {
        ObjectPatProp::KeyValue(p) => Some(
            implicit_member(key_expr(p.key), member_type(implicit_type_mark, *p.value)),
        ),
        ObjectPatProp::Assign(a) => Some(implicit_member(Expr::Ident(a.key), None)),
        ObjectPatProp::Rest(_) => None,
    }
}

/// The members of the type literal for an object pattern: what each property
/// contributes, in order.
pub open spec fn prop_members(implicit_type_mark: Mark, props: List<ObjectPatProp>) -> List<
    TsTypeElement,
>
    decreases props,
{
    match props {
        List::Nil => List::Nil,
        List::Cons(head, tail) => match prop_member(implicit_type_mark, *head) {
            Some(member) => List::Cons(
                Box::new(member),
                Box::new(prop_members(implicit_type_mark, *tail)),
            ),
            None => prop_members(implicit_type_mark, *tail),
        },
    }
}

/// An object pattern after defaulting: one with an annotation is untouched;
/// one without gets a type literal, marked as implicit.
pub open spec fn defaulted_object(implicit_type_mark: Mark, obj: ObjectPat) -> ObjectPat
    decreases obj,
{
    if obj.type_ann is Some {
        obj
    } else {
        ObjectPat {
            span: obj.span,
            props: consumed_props(implicit_type_mark, obj.props),
            optional: obj.optional,
            type_ann: Some(
                TsTypeAnn {
                    span: dummy_sp().marked(implicit_type_mark),
                    type_ann: Box::new(
                        TsType::TsTypeLit(
                            TsTypeLit {
                                span: dummy_sp(),
                                members: prop_members(implicit_type_mark, obj.props),
                            },
                        ),
                    ),
                },
            ),
        }
    }
}

/// A pattern after defaulting. Rest patterns, patterns with a default value,
/// invalid patterns and expressions are left as they are.
pub open spec fn defaulted_pat(implicit_type_mark: Mark, p: Pat) -> Pat {
    match p {
        Pat::Ident(i) => Pat::Ident(defaulted_ident(implicit_type_mark, i)),
        Pat::Array(a) => Pat::Array(defaulted_array(implicit_type_mark, a)),
        Pat::Object(o) => Pat::Object(defaulted_object(implicit_type_mark, o)),
        other => other,
    }
}

/// A parameter after defaulting. A rest parameter is left as it is.
pub open spec fn defaulted_param(implicit_type_mark: Mark, p: TsFnParam) -> TsFnParam {
    match p {
        TsFnParam::Ident(i) => TsFnParam::Ident(defaulted_ident(implicit_type_mark, i)),
        TsFnParam::Array(a) => TsFnParam::Array(defaulted_array(implicit_type_mark, a)),
        TsFnParam::Rest(r) => TsFnParam::Rest(r),
        TsFnParam::Object(o) => TsFnParam::Object(defaulted_object(implicit_type_mark, o)),
    }
}

/// A parameter list after defaulting: each parameter defaulted by itself.
pub open spec fn defaulted_params(implicit_type_mark: Mark, ps: List<TsFnParam>) -> List<
    TsFnParam,
>
    decreases ps,
{
    match ps {
        List::Nil => List::Nil,
        List::Cons(head, tail) => List::Cons(
            Box::new(defaulted_param(implicit_type_mark, *head)),
            Box::new(defaulted_params(implicit_type_mark, *tail)),
        ),
    }
}

impl Pat {
    /// Where the pattern stands in the source.
    pub fn span(&self) -> (s: Span)
        ensures
            s == pat_span(*self),
    {
        match self {
            Pat::Ident(b) => b.id.span,
            Pat::Array(a) => a.span,
            Pat::Rest(r) => r.span,
            Pat::Object(o) => o.span,
            Pat::Assign(a) => a.span,
            Pat::Invalid(i) => i.span,
            Pat::Expr(e) => e.span(),
        }
    }

    /// Takes the pattern's own annotation out of it.
    pub fn take_ty(&mut self) -> (ann: Option<TsTypeAnn>)
        ensures
            ann == pat_ty(*old(self)),
            *final(self) == pat_without_ty(*old(self)),
    {
        match self {
            Pat::Ident(b) => b.type_ann.take(),
            Pat::Array(a) => a.type_ann.take(),
            Pat::Rest(r) => r.type_ann.take(),
            Pat::Object(o) => o.type_ann.take(),
            Pat::Assign(_) => None,
            Pat::Invalid(_) => None,
            Pat::Expr(_) => None,
        }
    }
}

/// Gives a pattern without an annotation an implicit one.
pub fn default_any_pat(implicit_type_mark: Mark, p: &mut Pat)
    ensures
        *final(p) == defaulted_pat(implicit_type_mark, *old(p)),
    decreases *old(p), 2nat,
{
    match p {
        Pat::Ident(i) => default_any_ident(implicit_type_mark, i),
        Pat::Array(arr) => default_any_array_pat(implicit_type_mark, arr),
        Pat::Object(obj) => default_any_object(implicit_type_mark, obj),
        _ => {},
    }
}

/// Annotates an identifier without an annotation with `any`.
pub fn default_any_ident(implicit_type_mark: Mark, i: &mut BindingIdent)
    ensures
        *final(i) == defaulted_ident(implicit_type_mark, *old(i)),
{
    if i.type_ann.is_some() {
        return ;
    }
    let span = Span::dummy().apply_mark(implicit_type_mark);
    i.type_ann = Some(
        TsTypeAnn {
            span,
            type_ann: Box::new(
                TsType::TsKeywordType(
                    TsKeywordType { span, kind: TsKeywordTypeKind::TsAnyKeyword },
                ),
            ),
        },
    );
}

/// Defaults one element of an array pattern and hands back the tuple
/// element that stands for it.
fn default_any_elem(implicit_type_mark: Mark, elem: &mut Option<Pat>) -> (ty: TsTupleElement)
    ensures
        *final(elem) == consumed_elem(implicit_type_mark, *old(elem)),
        ty == elem_type(implicit_type_mark, *old(elem)),
    decreases *old(elem), 0nat,
{
    match elem {
        Some(Pat::Array(arr)) => {
            let span = arr.span;
            default_any_array_pat(implicit_type_mark, arr);
            let ty = *arr.type_ann.take().unwrap().type_ann;
            TsTupleElement { span, label: None, ty }
        },
        Some(Pat::Object(obj)) => {
            let span = obj.span;
            default_any_object(implicit_type_mark, obj);
            let ty = *obj.type_ann.take().unwrap().type_ann;
            TsTupleElement { span, label: None, ty }
        },
        Some(other) => TsTupleElement {
            span: other.span(),
            label: None,
            ty: TsType::TsKeywordType(
                TsKeywordType { span: Span::dummy(), kind: TsKeywordTypeKind::TsAnyKeyword },
            ),
        },
        None => TsTupleElement {
            span: Span::dummy(),
            label: None,
            ty: TsType::TsKeywordType(
                TsKeywordType { span: Span::dummy(), kind: TsKeywordTypeKind::TsAnyKeyword },
            ),
        },
    }
}

/// Defaults the elements of an array pattern and collects the tuple
/// elements that stand for them.
fn default_any_elems(implicit_type_mark: Mark, elems: &mut List<Option<Pat>>) -> (types: List<
    TsTupleElement,
>)
    ensures
        *final(elems) == consumed_elems(implicit_type_mark, *old(elems)),
        types == elem_types(implicit_type_mark, *old(elems)),
    decreases *old(elems),
{
    match elems {
        List::Nil => List::Nil,
        List::Cons(head, tail) => {
            let ty = default_any_elem(implicit_type_mark, head);
            let rest = default_any_elems(implicit_type_mark, tail);
            List::Cons(Box::new(ty), Box::new(rest))
        },
    }
}

/// Gives an array pattern without an annotation a tuple type.
///
/// Each element of the tuple stands for one element of the pattern: a nested
/// array or object pattern is defaulted first and hands its type over, so
/// that it is left without an annotation of its own; every other element,
/// and every hole, is `any`. The annotation stands where the pattern stands
/// and carries the mark.
pub fn default_any_array_pat(implicit_type_mark: Mark, arr: &mut ArrayPat)
    ensures
        *final(arr) == defaulted_array(implicit_type_mark, *old(arr)),
    decreases *old(arr), 1nat,
{
    if arr.type_ann.is_some() {
        return ;
    }
    let elem_types = default_any_elems(implicit_type_mark, &mut arr.elems);
    arr.type_ann = Some(
        TsTypeAnn {
            span: arr.span.apply_mark(implicit_type_mark),
            type_ann: Box::new(
                TsType::TsTupleType(TsTupleType { span: Span::dummy(), elem_types }),
            ),
        },
    );
}

/// Builds the plain property signature with the given key and type.
fn make_member(key: Expr, type_ann: Option<TsTypeAnn>) -> (m: TsTypeElement)
    ensures
        m == implicit_member(key, type_ann),
{
    TsTypeElement::TsPropertySignature(
        TsPropertySignature {
            span: Span::dummy(),
            readonly: false,
            key: Box::new(key),
            computed: false,
            optional: false,
            init: None,
            params: List::Nil,
            type_ann,
            type_params: None,
        },
    )
}

/// Defaults the value pattern of a `key: value` property where it is an
/// array or object pattern.
fn default_any_nested(implicit_type_mark: Mark, value: &mut Pat)
    ensures
        *final(value) == nested_defaulted(implicit_type_mark, *old(value)),
    decreases *old(value), 0nat,
{
    match value {
        Pat::Array(arr) => default_any_array_pat(implicit_type_mark, arr),
        Pat::Object(obj) => default_any_object(implicit_type_mark, obj),
        _ => {},
    }
}

/// Defaults one property of an object pattern and hands back the member
/// that stands for it, if any does.
fn default_any_prop(implicit_type_mark: Mark, prop: &mut ObjectPatProp) -> (member: Option<
    TsTypeElement,
>)
    ensures
        *final(prop) == consumed_prop(implicit_type_mark, *old(prop)),
        member == prop_member(implicit_type_mark, *old(prop)),
    decreases *old(prop),
{
    match prop {
        ObjectPatProp::KeyValue(p) => {
            default_any_nested(implicit_type_mark, &mut p.value);
            let type_ann = match p.value.take_ty() {
                Some(ann) => Some(TsTypeAnn { span: Span::dummy(), type_ann: ann.type_ann }),
                None => None,
            };
            Some(make_member(prop_name_to_expr(p.key.clone()), type_ann))
        },
        ObjectPatProp::Assign(a) => Some(make_member(Expr::Ident(a.key.clone()), None)),
        ObjectPatProp::Rest(_) => None,
    }
}

/// Defaults the properties of an object pattern and collects the members
/// that stand for them.
fn default_any_props(implicit_type_mark: Mark, props: &mut List<ObjectPatProp>) -> (members: List<
    TsTypeElement,
>)
    ensures
        *final(props) == consumed_props(implicit_type_mark, *old(props)),
        members == prop_members(implicit_type_mark, *old(props)),
    decreases *old(props),
{
    match props {
        List::Nil => List::Nil,
        List::Cons(head, tail) => {
            let member = default_any_prop(implicit_type_mark, head);
            let rest = default_any_props(implicit_type_mark, tail);
            match member {
                Some(m) => List::Cons(Box::new(m), Box::new(rest)),
                None => rest,
            }
        },
    }
}

/// Gives an object pattern without an annotation a type literal.
///
/// A `key: value` property whose value is an array or object pattern is
/// defaulted first; whatever type its value pattern then has moves into the
/// member. A value pattern without a type, and a shorthand property, give a
/// member without a type. A rest property gives no member.
pub fn default_any_object(implicit_type_mark: Mark, obj: &mut ObjectPat)
    ensures
        *final(obj) == defaulted_object(implicit_type_mark, *old(obj)),
    decreases *old(obj), 1nat,
{
    if obj.type_ann.is_some() {
        return ;
    }
    let members = default_any_props(implicit_type_mark, &mut obj.props);
    obj.type_ann = Some(
        TsTypeAnn {
            span: Span::dummy().apply_mark(implicit_type_mark),
            type_ann: Box::new(TsType::TsTypeLit(TsTypeLit { span: Span::dummy(), members })),
        },
    );
}

/// Gives a parameter without an annotation an implicit one. A rest
/// parameter is never touched.
pub fn default_any_param(implicit_type_mark: Mark, p: &mut TsFnParam)
    ensures
        *final(p) == defaulted_param(implicit_type_mark, *old(p)),
{
    match p {
        TsFnParam::Ident(i) => default_any_ident(implicit_type_mark, i),
        TsFnParam::Array(arr) => default_any_array_pat(implicit_type_mark, arr),
        TsFnParam::Rest(_) => {},
        TsFnParam::Object(obj) => default_any_object(implicit_type_mark, obj),
    }
}

/// Defaults every parameter of a list, first to last.
pub fn default_any_params(implicit_type_mark: Mark, ps: &mut List<TsFnParam>)
    ensures
        *final(ps) == defaulted_params(implicit_type_mark, *old(ps)),
    decreases *old(ps),
{
    match ps {
        List::Nil => {},
        List::Cons(head, tail) => {
            default_any_param(implicit_type_mark, head);
            default_any_params(implicit_type_mark, tail);
        },
    }
}

/// Defaulting leaves a pattern that carries an annotation exactly as it is.
pub proof fn annotated_pattern_is_untouched(implicit_type_mark: Mark, p: Pat)
    requires
        pat_ty(p) is Some,
    ensures
        defaulted_pat(implicit_type_mark, p) == p,
{
}

/// Defaulting a pattern a second time changes nothing, whatever mark the
/// second run uses.
pub proof fn defaulting_pat_twice(first_mark: Mark, second_mark: Mark, p: Pat)
    ensures
        defaulted_pat(second_mark, defaulted_pat(first_mark, p)) == defaulted_pat(first_mark, p),
{
}

/// Defaulting a parameter a second time changes nothing, whatever mark the
/// second run uses.
pub proof fn defaulting_param_twice(first_mark: Mark, second_mark: Mark, p: TsFnParam)
    ensures
        defaulted_param(second_mark, defaulted_param(first_mark, p)) == defaulted_param(
            first_mark,
            p,
        ),
{
}

/// Defaulting a parameter list a second time changes nothing.
pub proof fn defaulting_params_twice(first_mark: Mark, second_mark: Mark, ps: List<TsFnParam>)
    ensures
        defaulted_params(second_mark, defaulted_params(first_mark, ps)) == defaulted_params(
            first_mark,
            ps,
        ),
    decreases ps,
{
    match ps {
        List::Nil => {},
        List::Cons(head, tail) => {
            defaulting_param_twice(first_mark, second_mark, *head);
            defaulting_params_twice(first_mark, second_mark, *tail);
        },
    }
}

/// After defaulting, an identifier, array or object parameter carries an
/// annotation; a rest parameter is as it was.
pub proof fn defaulted_param_is_annotated(implicit_type_mark: Mark, p: TsFnParam)
    ensures
        match defaulted_param(implicit_type_mark, p) {
            TsFnParam::Ident(i) => i.type_ann is Some,
            TsFnParam::Array(a) => a.type_ann is Some,
            TsFnParam::Object(o) => o.type_ann is Some,
            TsFnParam::Rest(r) => TsFnParam::Rest(r) == p,
        },
{
}

/// Every annotation that defaulting gives a pattern carries the caller's
/// mark, and so can be told from a written one: the `any` of an identifier,
/// the tuple of an array pattern and the type literal of an object pattern.
/// The tuple of an array pattern keeps the positions of the pattern.
pub proof fn implicit_annotations_carry_the_mark(
    implicit_type_mark: Mark,
    i: BindingIdent,
    a: ArrayPat,
    o: ObjectPat,
)
    requires
        implicit_type_mark.0 != 0,
        i.type_ann is None,
        a.type_ann is None,
        o.type_ann is None,
    ensures
        defaulted_ident(implicit_type_mark, i).type_ann->Some_0.span.carries(implicit_type_mark),
        defaulted_ident(implicit_type_mark, i).type_ann->Some_0.type_ann == any_keyword(
            dummy_sp().marked(implicit_type_mark),
        ),
        defaulted_array(implicit_type_mark, a).type_ann->Some_0.span.carries(implicit_type_mark),
        defaulted_array(implicit_type_mark, a).type_ann->Some_0.span.lo == a.span.lo,
        defaulted_array(implicit_type_mark, a).type_ann->Some_0.span.hi == a.span.hi,
        defaulted_object(implicit_type_mark, o).type_ann->Some_0.span.carries(implicit_type_mark),
{
    marks_accumulate(dummy_sp(), implicit_type_mark, implicit_type_mark);
    marks_accumulate(a.span, implicit_type_mark, implicit_type_mark);
}

/// After defaulting with a mark that is not the root mark, the annotation of
/// an identifier, array or object parameter that had none carries the mark;
/// an annotation that was written is the one that was written.
pub proof fn defaulted_parameter_is_told_apart(implicit_type_mark: Mark, p: TsFnParam)
    requires
        implicit_type_mark.0 != 0,
    ensures
        match (p, defaulted_param(implicit_type_mark, p)) {
            (TsFnParam::Ident(before), TsFnParam::Ident(after)) => after.type_ann is Some && (
            match before.type_ann {
                Some(written) => after.type_ann == Some(written),
                None => after.type_ann->Some_0.span.carries(implicit_type_mark),
            }),
            (TsFnParam::Array(before), TsFnParam::Array(after)) => after.type_ann is Some && (
            match before.type_ann {
                Some(written) => after.type_ann == Some(written),
                None => after.type_ann->Some_0.span.carries(implicit_type_mark),
            }),
            (TsFnParam::Object(before), TsFnParam::Object(after)) => after.type_ann is Some && (
            match before.type_ann {
                Some(written) => after.type_ann == Some(written),
                None => after.type_ann->Some_0.span.carries(implicit_type_mark),
            }),
            (TsFnParam::Rest(before), TsFnParam::Rest(after)) => after == before,
            _ => false,
        },
{
    match p {
        TsFnParam::Ident(_) => {
            marks_accumulate(dummy_sp(), implicit_type_mark, implicit_type_mark);
        },
        TsFnParam::Array(a) => {
            marks_accumulate(a.span, implicit_type_mark, implicit_type_mark);
        },
        TsFnParam::Object(_) => {
            marks_accumulate(dummy_sp(), implicit_type_mark, implicit_type_mark);
        },
        TsFnParam::Rest(_) => {},
    }
}

} // verus!
