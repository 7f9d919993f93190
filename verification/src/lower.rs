//! What lowering computes, as mathematical functions.
//!
//! Each function here takes the state before a step and a piece of syntax,
//! and gives the state after the step, the syntax as the step leaves it, and
//! the step's result. The functions of [`crate::convert`] compute exactly
//! these.
//!
//! The functions that describe steps are opaque: a proof that needs the
//! definition of one reveals it, together with the functions that it calls.

use vstd::prelude::*;
use crate::analyzer::Analyzer;
use crate::ast::{
    any_keyword, TsArrayType, TsCallSignatureDecl, TsConditionalType, TsConstructSignatureDecl,
    TsConstructorType, TsExprWithTypeArgs, TsFnOrConstructorType, TsFnParam, TsFnType,
    TsImportType, TsIndexSignature, TsIndexedAccessType, TsInferType, TsInterfaceBody,
    TsInterfaceDecl, TsIntersectionType, TsLitType, TsMappedType, TsMethodSignature,
    TsOptionalType, TsParenthesizedType, TsPropertySignature, TsRestType, TsTupleElement,
    TsTupleType, TsType, TsTypeAliasDecl, TsTypeAnn, TsTypeElement, TsTypeLit, TsTypeOperator,
    TsTypeParam, TsTypeParamDecl, TsTypeParamInstantiation, TsTypePredicate, TsTypeQuery,
    TsTypeQueryExpr, TsTypeRef, TsUnionOrIntersectionType, TsUnionType,
};
use crate::default_any::defaulted_params;
use crate::errors::Error;
use crate::expr::TsEntityName;
use crate::list::List;
use crate::scope::{
    ScopeKind, Scopes, bindings_from, continuing_keeps_identity, innermost_placeholder_wins,
    placeholder_is_from, placeholder_of, same_slot, with_param_binds, with_param_continues,
    with_param_stays_from,
};
use crate::span::Span;
use crate::ty::{
    any_type, Alias, Array, CallSignature, Conditional, Constructor, ConstructorSignature, FnParam,
    Function, ImportType, IndexSignature, IndexedAccessType, InferType, Interface, Intersection,
    Mapped, MethodSignature, Operator, OptionalType, ParamPat, Predicate, PropertySignature,
    QueryExpr, QueryType, Ref, RestType, TsExpr, Tuple, TupleElement, Type, TypeElement, TypeLit,
    TypeParam, TypeParamDecl, TypeParamInstantiation, Union,
};
use crate::util::has_infer;
use crate::weight::{
    annotation_is_lighter, defaulted_params_weight, w_ann, w_array, w_call_sig, w_conditional,
    w_construct_sig, w_ctor_type, w_decl, w_element, w_elements, w_fn_param, w_fn_params,
    w_fn_type, w_import, w_index_sig, w_indexed, w_infer, w_inst, w_intersection, w_mapped,
    w_method_sig, w_operator, w_opt_ann, w_opt_decl, w_opt_inst, w_opt_type, w_optional, w_paren,
    w_predicate, w_property_sig, w_query, w_query_expr, w_rest, w_tparam, w_tparams, w_tuple,
    w_tuple_elem, w_tuple_elems, w_type, w_type_lit, w_type_ref, w_types, w_union,
};

verus! {

/// The outcome of one step of lowering: the state after it, the syntax as
/// it leaves it, and its result.
#[derive(Debug, PartialEq, Eq)]
pub struct Step<N, T> {
    pub az: Analyzer,
    pub node: N,
    pub out: Result<T, Error>,
}

/// The outcome of a step that leaves the syntax alone: the state after it
/// and its result.
#[derive(Debug, PartialEq, Eq)]
pub struct Outcome<T> {
    pub az: Analyzer,
    pub out: Result<T, Error>,
}

/// A step that succeeded with `v`.
pub open spec fn done<N, T>(az: Analyzer, node: N, v: T) -> Step<N, T> {
    Step { az, node, out: Ok(v) }
}

/// A step that failed with `e`.
pub open spec fn failed<N, T>(az: Analyzer, node: N, e: Error) -> Step<N, T> {
    Step { az, node, out: Err(e) }
}

/// The annotation `any` at `span`.
pub open spec fn any_ann(span: Span) -> TsTypeAnn {
    TsTypeAnn { span, type_ann: Box::new(any_keyword(span)) }
}

/// The only type argument, where exactly one was given.
pub open spec fn single_arg(args: Option<TypeParamInstantiation>) -> Option<Type> {
    match args {
        Some(inst) => match inst.params {
            List::Cons(first, rest) => if *rest == List::<Type>::Nil {
                Some(*first)
            } else {
                None
            },
            List::Nil => None,
        },
        None => None,
    }
}

/// What a reference to `name` with the lowered arguments `args` means in
/// `scope`:
/// * `Array` with exactly one argument is the array of that argument;
/// * an identifier that resolves to a placeholder is that placeholder, and
///   the arguments are dropped;
/// * anything else is a reference left for a later pass.
pub open spec fn resolved_ref(
    scope: Scopes,
    span: Span,
    name: TsEntityName,
    args: Option<TypeParamInstantiation>,
) -> Type {
    match name {
        TsEntityName::Ident(i) => if i.sym@ == "Array"@ && single_arg(args) is Some {
            Type::Array(Array { span, elem_type: Box::new(single_arg(args)->Some_0) })
        } else {
            match scope.resolved(i.id()) {
                Some(ph) => Type::Param(ph),
                None => Type::Ref(Ref { span, name, type_args: args }),
            }
        },
        _ => Type::Ref(Ref { span, name, type_args: args }),
    }
}

/// A type parameter as registered before its constraint and default are
/// lowered: open, with neither.
pub open spec fn open_param(p: TsTypeParam) -> TypeParam {
    TypeParam { span: p.span, name: p.name.id(), constraint: None, default: None }
}

/// The state after every parameter of a declaration was registered as an
/// open placeholder, first to last, up to the first that could not be.
pub open spec fn preregistered(az: Analyzer, params: List<TsTypeParam>) -> Outcome<()>
    decreases params,
{
    match params {
        List::Nil => Outcome { az, out: Ok(()) },
        List::Cons(p, rest) => match az.scope.param_outcome(open_param(*p)) {
            Err(e) => Outcome { az, out: Err(e) },
            Ok(_) => preregistered(az.with_scope(az.scope.with_param(open_param(*p))), *rest),
        },
    }
}

/// Whether the innermost scope binds the name of every parameter to a
/// placeholder.
pub open spec fn all_bound(az: Analyzer, params: List<TsTypeParam>) -> bool
    decreases params,
{
    match params {
        List::Nil => true,
        List::Cons(p, rest) => placeholder_of(az.scope.current.types, p.name.id()) is Some
            && all_bound(az, *rest),
    }
}

/// Whether the name of every parameter resolves in `after` to the
/// placeholder in the slot that it resolves to in `before`.
pub open spec fn all_kept(before: Analyzer, after: Analyzer, params: List<TsTypeParam>) -> bool
    decreases params,
{
    match params {
        List::Nil => true,
        List::Cons(p, rest) => same_slot(
            before.scope.resolved(p.name.id()),
            after.scope.resolved(p.name.id()),
        ) && all_kept(before, after, *rest),
    }
}

/// What a reference to a type parameter by its bare name means in `az`.
pub open spec fn reference_to(az: Analyzer, p: TsTypeParam) -> Type {
    resolved_ref(az.scope, p.name.span, TsEntityName::Ident(p.name), None)
}

/// Whether a reference to each of the parameters by its bare name is the
/// placeholder that the innermost scope binds the name to: the placeholder
/// itself, by its slot, not an unresolved reference.
pub open spec fn all_resolve(az: Analyzer, params: List<TsTypeParam>) -> bool
    decreases params,
{
    match params {
        List::Nil => true,
        List::Cons(p, rest) => placeholder_of(az.scope.current.types, p.name.id()) is Some
            && reference_to(az, *p) == Type::Param(
            placeholder_of(az.scope.current.types, p.name.id())->Some_0,
        ) && all_resolve(az, *rest),
    }
}

/// Whether the innermost scope binds the name of every parameter to a
/// placeholder in a slot at or above `base`.
pub open spec fn all_from(az: Analyzer, params: List<TsTypeParam>, base: u64) -> bool
    decreases params,
{
    match params {
        List::Nil => true,
        List::Cons(p, rest) => placeholder_of(az.scope.current.types, p.name.id()) is Some
            && placeholder_of(az.scope.current.types, p.name.id())->Some_0.slot >= base
            && all_from(az, *rest, base),
    }
}

/// A reference to a name whose type arguments are lowered already, where no
/// scope binds the name to a placeholder and the reference is not `Array` of
/// one argument: it is left for a later pass, with its name and arguments.
/// That a name is unknown is never a failure.
pub proof fn unbound_reference_is_deferred(
    scope: Scopes,
    span: Span,
    name: TsEntityName,
    args: Option<TypeParamInstantiation>,
)
    requires
        name matches TsEntityName::Ident(i) ==> scope.resolved(i.id()) is None && !(i.sym@
            == "Array"@ && single_arg(args) is Some),
    ensures
        resolved_ref(scope, span, name, args) == Type::Ref(Ref { span, name, type_args: args }),
{
}

/// A reference to a name that the innermost scope binds to a placeholder is
/// that placeholder, in `before` and in every state that continues it: the
/// same slot each time, whatever the scopes around hold.
pub proof fn bound_reference_is_its_placeholder(
    before: Analyzer,
    now: Analyzer,
    span: Span,
    name: crate::ident::Ident,
    args: Option<TypeParamInstantiation>,
)
    requires
        now.continues(before),
        placeholder_of(before.scope.current.types, name.id()) is Some,
        !(name.sym@ == "Array"@ && single_arg(args) is Some),
    ensures
        placeholder_of(now.scope.current.types, name.id()) is Some,
        resolved_ref(now.scope, span, TsEntityName::Ident(name), args) == Type::Param(
            placeholder_of(now.scope.current.types, name.id())->Some_0,
        ),
        placeholder_of(now.scope.current.types, name.id())->Some_0.slot == placeholder_of(
            before.scope.current.types,
            name.id(),
        )->Some_0.slot,
{
    innermost_placeholder_wins(now.scope, name.id());
}

/// A type reference is lowered by lowering its arguments and then resolving
/// its name in the scopes as they then are. It fails only where its
/// arguments fail; one without arguments never fails and changes nothing.
pub proof fn reference_lowers_as_its_name_resolves(az: Analyzer, t: TsTypeRef)
    ensures
        lower_type_ref(az, t).az == lower_opt_inst(az, t.type_params).az,
        lower_type_ref(az, t).node == (TsTypeRef {
            span: t.span,
            name: t.name,
            type_params: lower_opt_inst(az, t.type_params).node,
        }),
        lower_type_ref(az, t).out == (match lower_opt_inst(az, t.type_params).out {
            Ok(args) => Ok::<Type, Error>(
                resolved_ref(lower_opt_inst(az, t.type_params).az.scope, t.span, t.name, args),
            ),
            Err(e) => Err(e),
        }),
        t.type_params is None ==> lower_type_ref(az, t) == done(
            az,
            t,
            resolved_ref(az.scope, t.span, t.name, None),
        ),
{
    reveal(lower_type_ref);
    reveal(lower_opt_inst);
}

/// Where the innermost scope binds every parameter to a placeholder, a
/// reference to each parameter by its bare name is that placeholder.
pub proof fn bound_parameters_resolve(az: Analyzer, params: List<TsTypeParam>)
    requires
        all_bound(az, params),
    ensures
        all_resolve(az, params),
    decreases params,
{
    match params {
        List::Nil => {},
        List::Cons(p, rest) => {
            innermost_placeholder_wins(az.scope, p.name.id());
            bound_parameters_resolve(az, *rest);
        },
    }
}

/// Registering the parameters of a declaration in a scope whose
/// placeholders are all from `base` on binds each of them to a placeholder
/// from `base` on.
pub proof fn preregistering_is_from(az: Analyzer, params: List<TsTypeParam>, base: u64)
    requires
        bindings_from(az.scope.current.types, base),
        base <= az.scope.next_slot,
    ensures
        bindings_from(preregistered(az, params).az.scope.current.types, base),
        preregistered(az, params).out is Ok ==> all_from(
            preregistered(az, params).az,
            params,
            base,
        ),
    decreases params,
{
    match params {
        List::Nil => {},
        List::Cons(p, rest) => {
            let open = open_param(*p);
            with_param_stays_from(az.scope, open, base);
            with_param_continues(az.scope, open);
            if az.scope.param_outcome(open) is Ok {
                let next = az.with_scope(az.scope.with_param(open));
                with_param_binds(az.scope, open);
                preregistering_is_from(next, *rest, base);
                preregistering_binds_all(next, *rest);
                let end = preregistered(next, *rest).az;
                assert(placeholder_of(next.scope.current.types, p.name.id()) is Some);
                placeholder_is_from(next.scope.current.types, p.name.id(), base);
                assert(same_slot(
                    placeholder_of(next.scope.current.types, p.name.id()),
                    placeholder_of(end.scope.current.types, p.name.id()),
                ));
            }
        },
    }
}

/// While lowering stays in one scope, parameters bound to placeholders from
/// `base` on stay bound to them.
pub proof fn placeholders_stay_from(
    before: Analyzer,
    after: Analyzer,
    params: List<TsTypeParam>,
    base: u64,
)
    requires
        after.continues(before),
        all_from(before, params, base),
    ensures
        all_from(after, params, base),
    decreases params,
{
    match params {
        List::Nil => {},
        List::Cons(p, rest) => {
            assert(same_slot(
                placeholder_of(before.scope.current.types, p.name.id()),
                placeholder_of(after.scope.current.types, p.name.id()),
            ));
            placeholders_stay_from(before, after, *rest, base);
        },
    }
}

/// Registering the parameters of a declaration as open placeholders
/// continues the state, and where it succeeds, the innermost scope then
/// binds every parameter's name to a placeholder.
pub proof fn preregistering_binds_all(az: Analyzer, params: List<TsTypeParam>)
    ensures
        preregistered(az, params).az.continues(az),
        preregistered(az, params).out is Ok ==> all_bound(preregistered(az, params).az, params),
    decreases params,
{
    match params {
        List::Nil => {},
        List::Cons(p, rest) => {
            let open = open_param(*p);
            with_param_continues(az.scope, open);
            if az.scope.param_outcome(open) is Ok {
                let next = az.with_scope(az.scope.with_param(open));
                with_param_binds(az.scope, open);
                preregistering_binds_all(next, *rest);
                let end = preregistered(next, *rest).az;
                assert(placeholder_of(next.scope.current.types, p.name.id()) is Some);
                assert(end.continues(az));
            }
        },
    }
}

/// While lowering stays in one scope, parameters that the scope binds to
/// placeholders stay bound, each to the placeholder in the same slot.
pub proof fn bound_parameters_keep_their_identity(
    before: Analyzer,
    after: Analyzer,
    params: List<TsTypeParam>,
)
    requires
        after.continues(before),
        all_bound(before, params),
    ensures
        all_bound(after, params),
        all_kept(before, after, params),
    decreases params,
{
    match params {
        List::Nil => {},
        List::Cons(p, rest) => {
            continuing_keeps_identity(before.scope, after.scope, p.name.id());
            bound_parameters_keep_their_identity(before, after, *rest);
        },
    }
}

/// A type where there is one; nothing happens where there is none.
#[verifier::opaque]
pub open spec fn lower_opt_type(az: Analyzer, o: Option<Box<TsType>>) -> Step<
    Option<Box<TsType>>,
    Option<Box<Type>>,
>
    decreases w_opt_type(o),
{
    proof {
        reveal(w_opt_type);
        reveal(w_type);
    }
    match o {
        None => done(az, None, None),
        Some(t) => {
            let s = lower_type(az, *t);
            Step {
                az: s.az,
                node: Some(Box::new(s.node)),
                out: match s.out {
                    Ok(v) => Ok(Some(Box::new(v))),
                    Err(e) => Err(e),
                },
            }
        },
    }
}

/// An annotation: the type under it.
#[verifier::opaque]
pub open spec fn lower_ann(az: Analyzer, a: TsTypeAnn) -> Step<TsTypeAnn, Type>
    decreases w_ann(a),
{
    proof {
        reveal(w_ann);
        reveal(w_type);
    }
    let s = lower_type(az, *a.type_ann);
    Step { az: s.az, node: TsTypeAnn { span: a.span, type_ann: Box::new(s.node) }, out: s.out }
}

/// An annotation where there is one.
#[verifier::opaque]
pub open spec fn lower_opt_ann(az: Analyzer, o: Option<TsTypeAnn>) -> Step<
    Option<TsTypeAnn>,
    Option<Box<Type>>,
>
    decreases w_opt_ann(o),
{
    proof {
        reveal(w_opt_ann);
        reveal(w_ann);
    }
    match o {
        None => done(az, None, None),
        Some(a) => {
            let s = lower_ann(az, a);
            Step {
                az: s.az,
                node: Some(s.node),
                out: match s.out {
                    Ok(v) => Ok(Some(Box::new(v))),
                    Err(e) => Err(e),
                },
            }
        },
    }
}

/// One type parameter: its constraint, then its default, then its
/// registration with both.
#[verifier::opaque]
pub open spec fn lower_tparam(az: Analyzer, p: TsTypeParam) -> Step<TsTypeParam, TypeParam>
    decreases w_tparam(p),
{
    proof {
        reveal(w_tparam);
        reveal(w_opt_type);
    }
    let c = lower_opt_type(az, p.constraint);
    match c.out {
        Err(e) => failed(c.az, TsTypeParam { constraint: c.node, ..p }, e),
        Ok(constraint) => {
            let d = lower_opt_type(c.az, p.default);
            let node = TsTypeParam { constraint: c.node, default: d.node, ..p };
            match d.out {
                Err(e) => failed(d.az, node, e),
                Ok(default) => {
                    let param = TypeParam { span: p.span, name: p.name.id(), constraint, default };
                    Step {
                        az: d.az.with_scope(d.az.scope.with_param(param)),
                        node,
                        out: match d.az.scope.param_outcome(param) {
                            Ok(_) => Ok(param),
                            Err(e) => Err(e),
                        },
                    }
                },
            }
        },
    }
}

/// Type parameters, first to last, up to the first that fails; those
/// behind it are left untouched.
#[verifier::opaque]
pub open spec fn lower_tparams(az: Analyzer, l: List<TsTypeParam>) -> Step<
    List<TsTypeParam>,
    List<TypeParam>,
>
    decreases w_tparams(l),
{
    proof {
        reveal(w_tparams);
        reveal(w_tparam);
    }
    match l {
        List::Nil => done(az, List::Nil, List::Nil),
        List::Cons(head, tail) => {
            let h = lower_tparam(az, *head);
            match h.out {
                Err(e) => failed(h.az, List::Cons(Box::new(h.node), tail), e),
                Ok(v) => {
                    let t = lower_tparams(h.az, *tail);
                    Step {
                        az: t.az,
                        node: List::Cons(Box::new(h.node), Box::new(t.node)),
                        out: match t.out {
                            Ok(vs) => Ok(List::Cons(Box::new(v), Box::new(vs))),
                            Err(e) => Err(e),
                        },
                    }
                },
            }
        },
    }
}

/// A type parameter declaration. Unless the declaration is built in, every
/// name is first registered as an open placeholder, so that each constraint
/// and default may speak of any parameter of the declaration; a failure
/// there ends the step before anything is lowered.
#[verifier::opaque]
pub open spec fn lower_decl(az: Analyzer, d: TsTypeParamDecl) -> Step<
    TsTypeParamDecl,
    TypeParamDecl,
>
    decreases w_decl(d),
{
    proof {
        reveal(w_decl);
        reveal(w_tparams);
    }
    let pre = if az.is_builtin {
        Outcome { az, out: Ok::<(), Error>(()) }
    } else {
        preregistered(az, d.params)
    };
    match pre.out {
        Err(e) => failed(pre.az, d, e),
        Ok(_) => {
            let s = lower_tparams(pre.az, d.params);
            Step {
                az: s.az,
                node: TsTypeParamDecl { span: d.span, params: s.node },
                out: match s.out {
                    Ok(params) => Ok(TypeParamDecl { span: d.span, params }),
                    Err(e) => Err(e),
                },
            }
        },
    }
}

/// A type parameter declaration where there is one.
#[verifier::opaque]
pub open spec fn lower_opt_decl(az: Analyzer, o: Option<TsTypeParamDecl>) -> Step<
    Option<TsTypeParamDecl>,
    Option<TypeParamDecl>,
>
    decreases w_opt_decl(o),
{
    proof {
        reveal(w_opt_decl);
        reveal(w_decl);
    }
    match o {
        None => done(az, None, None),
        Some(d) => {
            let s = lower_decl(az, d);
            Step {
                az: s.az,
                node: Some(s.node),
                out: match s.out {
                    Ok(v) => Ok(Some(v)),
                    Err(e) => Err(e),
                },
            }
        },
    }
}

/// Types, first to last, up to the first that fails; those behind it are
/// left untouched.
#[verifier::opaque]
pub open spec fn lower_types(az: Analyzer, l: List<TsType>) -> Step<List<TsType>, List<Type>>
    decreases w_types(l),
{
    proof {
        reveal(w_types);
        reveal(w_type);
    }
    match l {
        List::Nil => done(az, List::Nil, List::Nil),
        List::Cons(head, tail) => {
            let h = lower_type(az, *head);
            match h.out {
                Err(e) => failed(h.az, List::Cons(Box::new(h.node), tail), e),
                Ok(v) => {
                    let t = lower_types(h.az, *tail);
                    Step {
                        az: t.az,
                        node: List::Cons(Box::new(h.node), Box::new(t.node)),
                        out: match t.out {
                            Ok(vs) => Ok(List::Cons(Box::new(v), Box::new(vs))),
                            Err(e) => Err(e),
                        },
                    }
                },
            }
        },
    }
}

/// A list of type arguments.
#[verifier::opaque]
pub open spec fn lower_inst(az: Analyzer, i: TsTypeParamInstantiation) -> Step<
    TsTypeParamInstantiation,
    TypeParamInstantiation,
>
    decreases w_inst(i),
{
    proof {
        reveal(w_inst);
        reveal(w_types);
    }
    let s = lower_types(az, i.params);
    Step {
        az: s.az,
        node: TsTypeParamInstantiation { span: i.span, params: s.node },
        out: match s.out {
            Ok(params) => Ok(TypeParamInstantiation { span: i.span, params }),
            Err(e) => Err(e),
        },
    }
}

/// A list of type arguments where there is one.
#[verifier::opaque]
pub open spec fn lower_opt_inst(az: Analyzer, o: Option<TsTypeParamInstantiation>) -> Step<
    Option<TsTypeParamInstantiation>,
    Option<TypeParamInstantiation>,
>
    decreases w_opt_inst(o),
{
    proof {
        reveal(w_opt_inst);
        reveal(w_inst);
    }
    match o {
        None => done(az, None, None),
        Some(i) => {
            let s = lower_inst(az, i);
            Step {
                az: s.az,
                node: Some(s.node),
                out: match s.out {
                    Ok(v) => Ok(Some(v)),
                    Err(e) => Err(e),
                },
            }
        },
    }
}

/// The type of a parameter: what its annotation gave, or `any` at the
/// parameter's span where it has none.
pub open spec fn param_ty(ty: Option<Box<Type>>, span: Span) -> Type {
    match ty {
        Some(t) => *t,
        None => any_type(span),
    }
}

/// The parameter with the annotation `ann`.
pub open spec fn with_ann(p: TsFnParam, ann: Option<TsTypeAnn>) -> TsFnParam {
    match p {
        TsFnParam::Ident(b) => TsFnParam::Ident(
            crate::ast::BindingIdent { id: b.id, type_ann: ann },
        ),
        TsFnParam::Array(a) => TsFnParam::Array(crate::ast::ArrayPat { type_ann: ann, ..a }),
        TsFnParam::Rest(r) => TsFnParam::Rest(crate::ast::RestPat { type_ann: ann, ..r }),
        TsFnParam::Object(o) => TsFnParam::Object(crate::ast::ObjectPat { type_ann: ann, ..o }),
    }
}

/// The annotation of a parameter.
pub open spec fn ann_of(p: TsFnParam) -> Option<TsTypeAnn> {
    match p {
        TsFnParam::Ident(b) => b.type_ann,
        TsFnParam::Array(a) => a.type_ann,
        TsFnParam::Rest(r) => r.type_ann,
        TsFnParam::Object(o) => o.type_ann,
    }
}

/// A parameter of the type `ty`. An identifier is required unless marked
/// optional; an array or object pattern is required; a rest parameter is
/// not.
pub open spec fn typed_param(p: TsFnParam, ty: Option<Box<Type>>) -> FnParam {
    match p {
        TsFnParam::Ident(b) => FnParam {
            span: b.id.span,
            required: !b.id.optional,
            pat: ParamPat::Ident(b.id),
            ty: Box::new(param_ty(ty, b.id.span)),
        },
        TsFnParam::Array(a) => FnParam {
            span: a.span,
            required: true,
            pat: ParamPat::Array,
            ty: Box::new(param_ty(ty, a.span)),
        },
        TsFnParam::Rest(r) => FnParam {
            span: r.span,
            required: false,
            pat: ParamPat::Rest,
            ty: Box::new(param_ty(ty, r.span)),
        },
        TsFnParam::Object(o) => FnParam {
            span: o.span,
            required: true,
            pat: ParamPat::Object,
            ty: Box::new(param_ty(ty, o.span)),
        },
    }
}

/// One parameter: its annotation is lowered where it has one.
#[verifier::opaque]
pub open spec fn lower_fn_param(az: Analyzer, p: TsFnParam) -> Step<TsFnParam, FnParam>
    decreases w_fn_param(p),
{
    proof {
        reveal(w_fn_param);
        reveal(w_ann);
        reveal(w_opt_ann);
    }
    proof {
        annotation_is_lighter(p);
    }
    let s = lower_opt_ann(az, ann_of(p));
    Step {
        az: s.az,
        node: with_ann(p, s.node),
        out: match s.out {
            Ok(ty) => Ok(typed_param(p, ty)),
            Err(e) => Err(e),
        },
    }
}

/// Parameters, first to last, up to the first that fails.
#[verifier::opaque]
pub open spec fn lower_fn_params(az: Analyzer, l: List<TsFnParam>) -> Step<
    List<TsFnParam>,
    List<FnParam>,
>
    decreases w_fn_params(l),
{
    proof {
        reveal(w_fn_params);
        reveal(w_fn_param);
    }
    match l {
        List::Nil => done(az, List::Nil, List::Nil),
        List::Cons(head, tail) => {
            let h = lower_fn_param(az, *head);
            match h.out {
                Err(e) => failed(h.az, List::Cons(Box::new(h.node), tail), e),
                Ok(v) => {
                    let t = lower_fn_params(h.az, *tail);
                    Step {
                        az: t.az,
                        node: List::Cons(Box::new(h.node), Box::new(t.node)),
                        out: match t.out {
                            Ok(vs) => Ok(List::Cons(Box::new(v), Box::new(vs))),
                            Err(e) => Err(e),
                        },
                    }
                },
            }
        },
    }
}

/// A call signature: its parameters, then its type parameters, then its
/// return type. Any failure ends the step.
#[verifier::opaque]
pub open spec fn lower_call_sig(az: Analyzer, d: TsCallSignatureDecl) -> Step<
    TsCallSignatureDecl,
    CallSignature,
>
    decreases w_call_sig(d),
{
    proof {
        reveal(w_call_sig);
        reveal(w_fn_params);
        reveal(w_opt_ann);
        reveal(w_opt_decl);
    }
    let ps = lower_fn_params(az, d.params);
    match ps.out {
        Err(e) => failed(ps.az, TsCallSignatureDecl { params: ps.node, ..d }, e),
        Ok(params) => {
            let tp = lower_opt_decl(ps.az, d.type_params);
            match tp.out {
                Err(e) => failed(
                    tp.az,
                    TsCallSignatureDecl { params: ps.node, type_params: tp.node, ..d },
                    e,
                ),
                Ok(type_params) => {
                    let r = lower_opt_ann(tp.az, d.type_ann);
                    Step {
                        az: r.az,
                        node: TsCallSignatureDecl {
                            span: d.span,
                            params: ps.node,
                            type_ann: r.node,
                            type_params: tp.node,
                        },
                        out: match r.out {
                            Ok(ret_ty) => Ok(
                                CallSignature { span: d.span, params, type_params, ret_ty },
                            ),
                            Err(e) => Err(e),
                        },
                    }
                },
            }
        },
    }
}

/// A construct signature: as a call signature.
#[verifier::opaque]
pub open spec fn lower_construct_sig(az: Analyzer, d: TsConstructSignatureDecl) -> Step<
    TsConstructSignatureDecl,
    ConstructorSignature,
>
    decreases w_construct_sig(d),
{
    proof {
        reveal(w_construct_sig);
        reveal(w_fn_params);
        reveal(w_opt_ann);
        reveal(w_opt_decl);
    }
    let ps = lower_fn_params(az, d.params);
    match ps.out {
        Err(e) => failed(ps.az, TsConstructSignatureDecl { params: ps.node, ..d }, e),
        Ok(params) => {
            let tp = lower_opt_decl(ps.az, d.type_params);
            match tp.out {
                Err(e) => failed(
                    tp.az,
                    TsConstructSignatureDecl { params: ps.node, type_params: tp.node, ..d },
                    e,
                ),
                Ok(type_params) => {
                    let r = lower_opt_ann(tp.az, d.type_ann);
                    Step {
                        az: r.az,
                        node: TsConstructSignatureDecl {
                            span: d.span,
                            params: ps.node,
                            type_ann: r.node,
                            type_params: tp.node,
                        },
                        out: match r.out {
                            Ok(ret_ty) => Ok(
                                ConstructorSignature {
                                    span: d.span,
                                    params,
                                    type_params,
                                    ret_ty,
                                },
                            ),
                            Err(e) => Err(e),
                        },
                    }
                },
            }
        },
    }
}

/// What the annotation of a property signature gives: the state after, the
/// annotation as it is left, and the type.
#[derive(Debug, PartialEq, Eq)]
pub struct TypedProperty {
    pub az: Analyzer,
    pub node: Option<TsTypeAnn>,
    pub ty: Type,
}

/// The type of a property signature, from what lowering its annotation
/// gave. A missing annotation, and one that could not be lowered, give
/// `any` at the span of the signature, written back into the syntax. Only a
/// lowering that failed is recorded as a finding; a missing annotation is
/// none. Lowering goes on in both cases.
pub open spec fn recovered(
    s: Step<Option<TsTypeAnn>, Option<Box<Type>>>,
    span: Span,
) -> TypedProperty {
    match s.out {
        Ok(Some(v)) => TypedProperty { az: s.az, node: s.node, ty: *v },
        Ok(None) => TypedProperty { az: s.az, node: Some(any_ann(span)), ty: any_type(span) },
        Err(e) => TypedProperty {
            az: s.az.stored(e),
            node: Some(any_ann(span)),
            ty: any_type(span),
        },
    }
}

/// A property signature: the check of its computed key, unless the
/// declaration is built in; its parameters; its type; its type parameters.
/// A failure in the parameters or type parameters ends the step; one in the
/// type does not.
#[verifier::opaque]
pub open spec fn lower_property_sig(az: Analyzer, d: TsPropertySignature) -> Step<
    TsPropertySignature,
    PropertySignature,
>
    decreases w_property_sig(d),
{
    proof {
        reveal(w_property_sig);
        reveal(w_fn_params);
        reveal(w_opt_ann);
        reveal(w_opt_decl);
    }
    let az0 = if !az.is_builtin && d.computed {
        az.key_checked(*d.key)
    } else {
        az
    };
    let ps = lower_fn_params(az0, d.params);
    match ps.out {
        Err(e) => failed(ps.az, TsPropertySignature { params: ps.node, ..d }, e),
        Ok(params) => {
            let ty = recovered(lower_opt_ann(ps.az, d.type_ann), d.span);
            let tp = lower_opt_decl(ty.az, d.type_params);
            Step {
                az: tp.az,
                node: TsPropertySignature {
                    params: ps.node,
                    type_ann: ty.node,
                    type_params: tp.node,
                    ..d
                },
                out: match tp.out {
                    Ok(type_params) => Ok(
                        PropertySignature {
                            span: d.span,
                            readonly: d.readonly,
                            key: d.key,
                            computed: d.computed,
                            optional: d.optional,
                            params,
                            type_ann: Some(Box::new(ty.ty)),
                            type_params,
                        },
                    ),
                    Err(e) => Err(e),
                },
            }
        },
    }
}

/// The state in which the parts of a method signature are lowered: inside a
/// new scope of the method's own, after the check of its key where the key
/// is computed.
pub open spec fn method_scope(az: Analyzer, d: TsMethodSignature) -> Analyzer {
    if d.computed {
        az.in_child(ScopeKind::Fn).key_checked(*d.key)
    } else {
        az.in_child(ScopeKind::Fn)
    }
}

/// A method signature, in a scope of its own: the check of its computed
/// key; its type parameters; its parameters; its return type. The scope is
/// closed again however the step ends.
#[verifier::opaque]
pub open spec fn lower_method_sig(az: Analyzer, d: TsMethodSignature) -> Step<
    TsMethodSignature,
    MethodSignature,
>
    decreases w_method_sig(d),
{
    proof {
        reveal(w_method_sig);
        reveal(w_fn_params);
        reveal(w_opt_ann);
        reveal(w_opt_decl);
    }
    let tp = lower_opt_decl(method_scope(az, d), d.type_params);
    match tp.out {
        Err(e) => failed(tp.az.out_of_child(), TsMethodSignature { type_params: tp.node, ..d }, e),
        Ok(type_params) => {
            let ps = lower_fn_params(tp.az, d.params);
            match ps.out {
                Err(e) => failed(
                    ps.az.out_of_child(),
                    TsMethodSignature { type_params: tp.node, params: ps.node, ..d },
                    e,
                ),
                Ok(params) => {
                    let r = lower_opt_ann(ps.az, d.type_ann);
                    Step {
                        az: r.az.out_of_child(),
                        node: TsMethodSignature {
                            type_params: tp.node,
                            params: ps.node,
                            type_ann: r.node,
                            ..d
                        },
                        out: match r.out {
                            Ok(ret_ty) => Ok(
                                MethodSignature {
                                    span: d.span,
                                    readonly: d.readonly,
                                    key: d.key,
                                    computed: d.computed,
                                    optional: d.optional,
                                    params,
                                    ret_ty,
                                    type_params,
                                },
                            ),
                            Err(e) => Err(e),
                        },
                    }
                },
            }
        },
    }
}

/// An index signature: its parameters, then its type.
#[verifier::opaque]
pub open spec fn lower_index_sig(az: Analyzer, d: TsIndexSignature) -> Step<
    TsIndexSignature,
    IndexSignature,
>
    decreases w_index_sig(d),
{
    proof {
        reveal(w_index_sig);
        reveal(w_fn_params);
        reveal(w_opt_ann);
    }
    let ps = lower_fn_params(az, d.params);
    match ps.out {
        Err(e) => failed(ps.az, TsIndexSignature { params: ps.node, ..d }, e),
        Ok(params) => {
            let r = lower_opt_ann(ps.az, d.type_ann);
            Step {
                az: r.az,
                node: TsIndexSignature { params: ps.node, type_ann: r.node, ..d },
                out: match r.out {
                    Ok(type_ann) => Ok(
                        IndexSignature { span: d.span, params, type_ann, readonly: d.readonly },
                    ),
                    Err(e) => Err(e),
                },
            }
        },
    }
}

/// One member, by its kind.
#[verifier::opaque]
pub open spec fn lower_element(az: Analyzer, e: TsTypeElement) -> Step<TsTypeElement, TypeElement>
    decreases w_element(e),
{
    proof {
        reveal(w_element);
        reveal(w_call_sig);
        reveal(w_construct_sig);
        reveal(w_index_sig);
        reveal(w_method_sig);
        reveal(w_property_sig);
    }
    match e {
        TsTypeElement::TsCallSignatureDecl(d) => {
            let s = lower_call_sig(az, d);
            Step {
                az: s.az,
                node: TsTypeElement::TsCallSignatureDecl(s.node),
                out: match s.out {
                    Ok(v) => Ok(TypeElement::Call(v)),
                    Err(e) => Err(e),
                },
            }
        },
        TsTypeElement::TsConstructSignatureDecl(d) => {
            let s = lower_construct_sig(az, d);
            Step {
                az: s.az,
                node: TsTypeElement::TsConstructSignatureDecl(s.node),
                out: match s.out {
                    Ok(v) => Ok(TypeElement::Constructor(v)),
                    Err(e) => Err(e),
                },
            }
        },
        TsTypeElement::TsPropertySignature(d) => {
            let s = lower_property_sig(az, d);
            Step {
                az: s.az,
                node: TsTypeElement::TsPropertySignature(s.node),
                out: match s.out {
                    Ok(v) => Ok(TypeElement::Property(v)),
                    Err(e) => Err(e),
                },
            }
        },
        TsTypeElement::TsMethodSignature(d) => {
            let s = lower_method_sig(az, d);
            Step {
                az: s.az,
                node: TsTypeElement::TsMethodSignature(s.node),
                out: match s.out {
                    Ok(v) => Ok(TypeElement::Method(v)),
                    Err(e) => Err(e),
                },
            }
        },
        TsTypeElement::TsIndexSignature(d) => {
            let s = lower_index_sig(az, d);
            Step {
                az: s.az,
                node: TsTypeElement::TsIndexSignature(s.node),
                out: match s.out {
                    Ok(v) => Ok(TypeElement::Index(v)),
                    Err(e) => Err(e),
                },
            }
        },
    }
}

/// Members, first to last, up to the first that fails.
#[verifier::opaque]
pub open spec fn lower_elements(az: Analyzer, l: List<TsTypeElement>) -> Step<
    List<TsTypeElement>,
    List<TypeElement>,
>
    decreases w_elements(l),
{
    proof {
        reveal(w_elements);
        reveal(w_element);
    }
    match l {
        List::Nil => done(az, List::Nil, List::Nil),
        List::Cons(head, tail) => {
            let h = lower_element(az, *head);
            match h.out {
                Err(e) => failed(h.az, List::Cons(Box::new(h.node), tail), e),
                Ok(v) => {
                    let t = lower_elements(h.az, *tail);
                    Step {
                        az: t.az,
                        node: List::Cons(Box::new(h.node), Box::new(t.node)),
                        out: match t.out {
                            Ok(vs) => Ok(List::Cons(Box::new(v), Box::new(vs))),
                            Err(e) => Err(e),
                        },
                    }
                },
            }
        },
    }
}

/// A function type: its type parameters; then every parameter is
/// defaulted; then the parameters are lowered; then the return type.
#[verifier::opaque]
pub open spec fn lower_fn_type(az: Analyzer, t: TsFnType) -> Step<TsFnType, Function>
    decreases w_fn_type(t),
{
    proof {
        reveal(w_fn_type);
        reveal(w_ann);
        reveal(w_fn_params);
        reveal(w_opt_decl);
    }
    let tp = lower_opt_decl(az, t.type_params);
    match tp.out {
        Err(e) => failed(tp.az, TsFnType { type_params: tp.node, ..t }, e),
        Ok(type_params) => {
            proof {
                defaulted_params_weight(tp.az.marks.implicit_type_mark, t.params);
            }
            let ps = lower_fn_params(
                tp.az,
                defaulted_params(tp.az.marks.implicit_type_mark, t.params),
            );
            match ps.out {
                Err(e) => failed(
                    ps.az,
                    TsFnType { type_params: tp.node, params: ps.node, ..t },
                    e,
                ),
                Ok(params) => {
                    let r = lower_ann(ps.az, t.type_ann);
                    Step {
                        az: r.az,
                        node: TsFnType {
                            span: t.span,
                            params: ps.node,
                            type_params: tp.node,
                            type_ann: r.node,
                        },
                        out: match r.out {
                            Ok(ret) => Ok(
                                Function {
                                    span: t.span,
                                    type_params,
                                    params,
                                    ret_ty: Box::new(ret),
                                },
                            ),
                            Err(e) => Err(e),
                        },
                    }
                },
            }
        },
    }
}

/// A constructor type: as a function type.
#[verifier::opaque]
pub open spec fn lower_ctor_type(az: Analyzer, t: TsConstructorType) -> Step<
    TsConstructorType,
    Constructor,
>
    decreases w_ctor_type(t),
{
    proof {
        reveal(w_ctor_type);
        reveal(w_ann);
        reveal(w_fn_params);
        reveal(w_opt_decl);
    }
    let tp = lower_opt_decl(az, t.type_params);
    match tp.out {
        Err(e) => failed(tp.az, TsConstructorType { type_params: tp.node, ..t }, e),
        Ok(type_params) => {
            proof {
                defaulted_params_weight(tp.az.marks.implicit_type_mark, t.params);
            }
            let ps = lower_fn_params(
                tp.az,
                defaulted_params(tp.az.marks.implicit_type_mark, t.params),
            );
            match ps.out {
                Err(e) => failed(
                    ps.az,
                    TsConstructorType { type_params: tp.node, params: ps.node, ..t },
                    e,
                ),
                Ok(params) => {
                    let r = lower_ann(ps.az, t.type_ann);
                    Step {
                        az: r.az,
                        node: TsConstructorType {
                            span: t.span,
                            params: ps.node,
                            type_params: tp.node,
                            type_ann: r.node,
                        },
                        out: match r.out {
                            Ok(ret) => Ok(
                                Constructor {
                                    span: t.span,
                                    type_params,
                                    params,
                                    type_ann: Box::new(ret),
                                },
                            ),
                            Err(e) => Err(e),
                        },
                    }
                },
            }
        },
    }
}

/// A type reference: its arguments are lowered, then the name is resolved
/// in the scope as it then is. An unresolved name is not a failure.
#[verifier::opaque]
pub open spec fn lower_type_ref(az: Analyzer, t: TsTypeRef) -> Step<TsTypeRef, Type>
    decreases w_type_ref(t),
{
    proof {
        reveal(w_type_ref);
        reveal(w_opt_inst);
    }
    let s = lower_opt_inst(az, t.type_params);
    Step {
        az: s.az,
        node: TsTypeRef { span: t.span, name: t.name, type_params: s.node },
        out: match s.out {
            Ok(args) => Ok(resolved_ref(s.az.scope, t.span, t.name, args)),
            Err(e) => Err(e),
        },
    }
}

/// A type predicate: the type that it asserts, where it names one.
#[verifier::opaque]
pub open spec fn lower_predicate(az: Analyzer, t: TsTypePredicate) -> Step<
    TsTypePredicate,
    Predicate,
>
    decreases w_predicate(t),
{
    proof {
        reveal(w_predicate);
        reveal(w_opt_ann);
    }
    let s = lower_opt_ann(az, t.type_ann);
    Step {
        az: s.az,
        node: TsTypePredicate { type_ann: s.node, ..t },
        out: match s.out {
            Ok(ty) => Ok(
                Predicate { span: t.span, param_name: t.param_name, asserts: t.asserts, ty },
            ),
            Err(e) => Err(e),
        },
    }
}

/// An import type: its type arguments.
#[verifier::opaque]
pub open spec fn lower_import(az: Analyzer, t: TsImportType) -> Step<TsImportType, ImportType>
    decreases w_import(t),
{
    proof {
        reveal(w_import);
        reveal(w_opt_inst);
    }
    let s = lower_opt_inst(az, t.type_args);
    Step {
        az: s.az,
        node: TsImportType { type_args: s.node, ..t },
        out: match s.out {
            Ok(type_params) => Ok(
                ImportType { span: t.span, arg: t.arg, qualifier: t.qualifier, type_params },
            ),
            Err(e) => Err(e),
        },
    }
}

/// What a type query asks the type of: a name as it is, an import type
/// lowered.
#[verifier::opaque]
pub open spec fn lower_query_expr(az: Analyzer, t: TsTypeQueryExpr) -> Step<
    TsTypeQueryExpr,
    QueryExpr,
>
    decreases w_query_expr(t),
{
    proof {
        reveal(w_query_expr);
        reveal(w_import);
    }
    match t {
        TsTypeQueryExpr::TsEntityName(n) => done(az, t, QueryExpr::TsEntityName(n)),
        TsTypeQueryExpr::Import(i) => {
            let s = lower_import(az, i);
            Step {
                az: s.az,
                node: TsTypeQueryExpr::Import(s.node),
                out: match s.out {
                    Ok(v) => Ok(QueryExpr::Import(v)),
                    Err(e) => Err(e),
                },
            }
        },
    }
}

/// A type query.
#[verifier::opaque]
pub open spec fn lower_query(az: Analyzer, t: TsTypeQuery) -> Step<TsTypeQuery, QueryType>
    decreases w_query(t),
{
    proof {
        reveal(w_query);
        reveal(w_query_expr);
    }
    let s = lower_query_expr(az, t.expr_name);
    Step {
        az: s.az,
        node: TsTypeQuery { span: t.span, expr_name: s.node },
        out: match s.out {
            Ok(expr) => Ok(QueryType { span: t.span, expr }),
            Err(e) => Err(e),
        },
    }
}

/// A type literal: its members.
#[verifier::opaque]
pub open spec fn lower_type_lit(az: Analyzer, t: TsTypeLit) -> Step<TsTypeLit, TypeLit>
    decreases w_type_lit(t),
{
    proof {
        reveal(w_type_lit);
        reveal(w_elements);
    }
    let s = lower_elements(az, t.members);
    Step {
        az: s.az,
        node: TsTypeLit { span: t.span, members: s.node },
        out: match s.out {
            Ok(members) => Ok(TypeLit { span: t.span, members }),
            Err(e) => Err(e),
        },
    }
}

/// An array type: its element type.
#[verifier::opaque]
pub open spec fn lower_array(az: Analyzer, t: TsArrayType) -> Step<TsArrayType, Array>
    decreases w_array(t),
{
    proof {
        reveal(w_array);
        reveal(w_type);
    }
    let s = lower_type(az, *t.elem_type);
    Step {
        az: s.az,
        node: TsArrayType { span: t.span, elem_type: Box::new(s.node) },
        out: match s.out {
            Ok(v) => Ok(Array { span: t.span, elem_type: Box::new(v) }),
            Err(e) => Err(e),
        },
    }
}

/// One element of a tuple type; its label is kept.
#[verifier::opaque]
pub open spec fn lower_tuple_elem(az: Analyzer, t: TsTupleElement) -> Step<
    TsTupleElement,
    TupleElement,
>
    decreases w_tuple_elem(t),
{
    proof {
        reveal(w_tuple_elem);
        reveal(w_type);
    }
    let s = lower_type(az, t.ty);
    Step {
        az: s.az,
        node: TsTupleElement { span: t.span, label: t.label, ty: s.node },
        out: match s.out {
            Ok(ty) => Ok(TupleElement { span: t.span, label: t.label, ty }),
            Err(e) => Err(e),
        },
    }
}

/// The elements of a tuple type, first to last, up to the first that
/// fails.
#[verifier::opaque]
pub open spec fn lower_tuple_elems(az: Analyzer, l: List<TsTupleElement>) -> Step<
    List<TsTupleElement>,
    List<TupleElement>,
>
    decreases w_tuple_elems(l),
{
    proof {
        reveal(w_tuple_elems);
        reveal(w_tuple_elem);
    }
    match l {
        List::Nil => done(az, List::Nil, List::Nil),
        List::Cons(head, tail) => {
            let h = lower_tuple_elem(az, *head);
            match h.out {
                Err(e) => failed(h.az, List::Cons(Box::new(h.node), tail), e),
                Ok(v) => {
                    let t = lower_tuple_elems(h.az, *tail);
                    Step {
                        az: t.az,
                        node: List::Cons(Box::new(h.node), Box::new(t.node)),
                        out: match t.out {
                            Ok(vs) => Ok(List::Cons(Box::new(v), Box::new(vs))),
                            Err(e) => Err(e),
                        },
                    }
                },
            }
        },
    }
}

/// A tuple type: its elements, in order.
#[verifier::opaque]
pub open spec fn lower_tuple(az: Analyzer, t: TsTupleType) -> Step<TsTupleType, Tuple>
    decreases w_tuple(t),
{
    proof {
        reveal(w_tuple);
        reveal(w_tuple_elems);
    }
    let s = lower_tuple_elems(az, t.elem_types);
    Step {
        az: s.az,
        node: TsTupleType { span: t.span, elem_types: s.node },
        out: match s.out {
            Ok(elems) => Ok(Tuple { span: t.span, elems }),
            Err(e) => Err(e),
        },
    }
}

/// An optional type: the type that may be missing.
#[verifier::opaque]
pub open spec fn lower_optional(az: Analyzer, t: TsOptionalType) -> Step<
    TsOptionalType,
    OptionalType,
>
    decreases w_optional(t),
{
    proof {
        reveal(w_optional);
        reveal(w_type);
    }
    let s = lower_type(az, *t.type_ann);
    Step {
        az: s.az,
        node: TsOptionalType { span: t.span, type_ann: Box::new(s.node) },
        out: match s.out {
            Ok(v) => Ok(OptionalType { span: t.span, ty: Box::new(v) }),
            Err(e) => Err(e),
        },
    }
}

/// A rest type: the type of the rest.
#[verifier::opaque]
pub open spec fn lower_rest(az: Analyzer, t: TsRestType) -> Step<TsRestType, RestType>
    decreases w_rest(t),
{
    proof {
        reveal(w_rest);
        reveal(w_type);
    }
    let s = lower_type(az, *t.type_ann);
    Step {
        az: s.az,
        node: TsRestType { span: t.span, type_ann: Box::new(s.node) },
        out: match s.out {
            Ok(v) => Ok(RestType { span: t.span, ty: Box::new(v) }),
            Err(e) => Err(e),
        },
    }
}

/// A union type: its members, in order.
#[verifier::opaque]
pub open spec fn lower_union(az: Analyzer, t: TsUnionType) -> Step<TsUnionType, Union>
    decreases w_union(t),
{
    proof {
        reveal(w_union);
        reveal(w_types);
    }
    let s = lower_types(az, t.types);
    Step {
        az: s.az,
        node: TsUnionType { span: t.span, types: s.node },
        out: match s.out {
            Ok(types) => Ok(Union { span: t.span, types }),
            Err(e) => Err(e),
        },
    }
}

/// An intersection type: its members, in order.
#[verifier::opaque]
pub open spec fn lower_intersection(az: Analyzer, t: TsIntersectionType) -> Step<
    TsIntersectionType,
    Intersection,
>
    decreases w_intersection(t),
{
    proof {
        reveal(w_intersection);
        reveal(w_types);
    }
    let s = lower_types(az, t.types);
    Step {
        az: s.az,
        node: TsIntersectionType { span: t.span, types: s.node },
        out: match s.out {
            Ok(types) => Ok(Intersection { span: t.span, types }),
            Err(e) => Err(e),
        },
    }
}

/// A conditional type: the checked type, the type it is held against, the
/// type for yes and the type for no, in this order.
#[verifier::opaque]
pub open spec fn lower_conditional(az: Analyzer, t: TsConditionalType) -> Step<
    TsConditionalType,
    Conditional,
>
    decreases w_conditional(t),
{
    proof {
        reveal(w_conditional);
        reveal(w_type);
    }
    let c = lower_type(az, *t.check_type);
    match c.out {
        Err(e) => failed(c.az, TsConditionalType { check_type: Box::new(c.node), ..t }, e),
        Ok(check) => {
            let x = lower_type(c.az, *t.extends_type);
            match x.out {
                Err(e) => failed(
                    x.az,
                    TsConditionalType {
                        check_type: Box::new(c.node),
                        extends_type: Box::new(x.node),
                        ..t
                    },
                    e,
                ),
                Ok(extends) => {
                    let y = lower_type(x.az, *t.true_type);
                    match y.out {
                        Err(e) => failed(
                            y.az,
                            TsConditionalType {
                                check_type: Box::new(c.node),
                                extends_type: Box::new(x.node),
                                true_type: Box::new(y.node),
                                ..t
                            },
                            e,
                        ),
                        Ok(yes) => {
                            let n = lower_type(y.az, *t.false_type);
                            Step {
                                az: n.az,
                                node: TsConditionalType {
                                    span: t.span,
                                    check_type: Box::new(c.node),
                                    extends_type: Box::new(x.node),
                                    true_type: Box::new(y.node),
                                    false_type: Box::new(n.node),
                                },
                                out: match n.out {
                                    Ok(no) => Ok(
                                        Conditional {
                                            span: t.span,
                                            check_type: Box::new(check),
                                            extends_type: Box::new(extends),
                                            true_type: Box::new(yes),
                                            false_type: Box::new(no),
                                        },
                                    ),
                                    Err(e) => Err(e),
                                },
                            }
                        },
                    }
                },
            }
        },
    }
}

/// An inference position: its type parameter, which is registered in the
/// scope as any other.
#[verifier::opaque]
pub open spec fn lower_infer(az: Analyzer, t: TsInferType) -> Step<TsInferType, InferType>
    decreases w_infer(t),
{
    proof {
        reveal(w_infer);
        reveal(w_tparam);
    }
    let s = lower_tparam(az, t.type_param);
    Step {
        az: s.az,
        node: TsInferType { span: t.span, type_param: s.node },
        out: match s.out {
            Ok(type_param) => Ok(InferType { span: t.span, type_param }),
            Err(e) => Err(e),
        },
    }
}

/// A type in parentheses is the type between them.
#[verifier::opaque]
pub open spec fn lower_paren(az: Analyzer, t: TsParenthesizedType) -> Step<
    TsParenthesizedType,
    Type,
>
    decreases w_paren(t),
{
    proof {
        reveal(w_paren);
        reveal(w_type);
    }
    let s = lower_type(az, *t.type_ann);
    Step {
        az: s.az,
        node: TsParenthesizedType { span: t.span, type_ann: Box::new(s.node) },
        out: s.out,
    }
}

/// A type operator: the type that it is applied to.
#[verifier::opaque]
pub open spec fn lower_operator(az: Analyzer, t: TsTypeOperator) -> Step<TsTypeOperator, Operator>
    decreases w_operator(t),
{
    proof {
        reveal(w_operator);
        reveal(w_type);
    }
    let s = lower_type(az, *t.type_ann);
    Step {
        az: s.az,
        node: TsTypeOperator { span: t.span, op: t.op, type_ann: Box::new(s.node) },
        out: match s.out {
            Ok(v) => Ok(Operator { span: t.span, op: t.op, ty: Box::new(v) }),
            Err(e) => Err(e),
        },
    }
}

/// An indexed access type: the object type, then the index type.
#[verifier::opaque]
pub open spec fn lower_indexed(az: Analyzer, t: TsIndexedAccessType) -> Step<
    TsIndexedAccessType,
    IndexedAccessType,
>
    decreases w_indexed(t),
{
    proof {
        reveal(w_indexed);
        reveal(w_type);
    }
    let o = lower_type(az, *t.obj_type);
    match o.out {
        Err(e) => failed(o.az, TsIndexedAccessType { obj_type: Box::new(o.node), ..t }, e),
        Ok(obj) => {
            let i = lower_type(o.az, *t.index_type);
            Step {
                az: i.az,
                node: TsIndexedAccessType {
                    span: t.span,
                    readonly: t.readonly,
                    obj_type: Box::new(o.node),
                    index_type: Box::new(i.node),
                },
                out: match i.out {
                    Ok(index) => Ok(
                        IndexedAccessType {
                            span: t.span,
                            readonly: t.readonly,
                            obj_type: Box::new(obj),
                            index_type: Box::new(index),
                        },
                    ),
                    Err(e) => Err(e),
                },
            }
        },
    }
}

/// A mapped type: its type parameter, then the type of the members.
#[verifier::opaque]
pub open spec fn lower_mapped(az: Analyzer, t: TsMappedType) -> Step<TsMappedType, Mapped>
    decreases w_mapped(t),
{
    proof {
        reveal(w_mapped);
        reveal(w_opt_type);
        reveal(w_tparam);
    }
    let p = lower_tparam(az, t.type_param);
    match p.out {
        Err(e) => failed(p.az, TsMappedType { type_param: p.node, ..t }, e),
        Ok(type_param) => {
            let s = lower_opt_type(p.az, t.type_ann);
            Step {
                az: s.az,
                node: TsMappedType { type_param: p.node, type_ann: s.node, ..t },
                out: match s.out {
                    Ok(ty) => Ok(
                        Mapped {
                            span: t.span,
                            readonly: t.readonly,
                            optional: t.optional,
                            type_param,
                            ty,
                        },
                    ),
                    Err(e) => Err(e),
                },
            }
        },
    }
}

/// A type, by its kind. A literal type is marked as not to be widened.
#[verifier::opaque]
pub open spec fn lower_type(az: Analyzer, t: TsType) -> Step<TsType, Type>
    decreases w_type(t),
{
    proof {
        reveal(w_type);
        reveal(w_array);
        reveal(w_conditional);
        reveal(w_ctor_type);
        reveal(w_fn_type);
        reveal(w_import);
        reveal(w_indexed);
        reveal(w_infer);
        reveal(w_intersection);
        reveal(w_mapped);
        reveal(w_operator);
        reveal(w_optional);
        reveal(w_paren);
        reveal(w_predicate);
        reveal(w_query);
        reveal(w_rest);
        reveal(w_tuple);
        reveal(w_type_lit);
        reveal(w_type_ref);
        reveal(w_union);
    }
    match t {
        TsType::TsThisType(x) => done(az, t, Type::This(x)),
        TsType::TsLitType(x) => done(
            az,
            t,
            Type::Lit(
                TsLitType { span: x.span.marked(az.marks.prevent_generalization_mark), lit: x.lit },
            ),
        ),
        TsType::TsKeywordType(x) => done(az, t, Type::Keyword(x)),
        TsType::TsTupleType(x) => {
            let s = lower_tuple(az, x);
            Step {
                az: s.az,
                node: TsType::TsTupleType(s.node),
                out: match s.out {
                    Ok(v) => Ok(Type::Tuple(v)),
                    Err(e) => Err(e),
                },
            }
        },
        TsType::TsUnionOrIntersectionType(TsUnionOrIntersectionType::TsUnionType(x)) => {
            let s = lower_union(az, x);
            Step {
                az: s.az,
                node: TsType::TsUnionOrIntersectionType(
                    TsUnionOrIntersectionType::TsUnionType(s.node),
                ),
                out: match s.out {
                    Ok(v) => Ok(Type::Union(v)),
                    Err(e) => Err(e),
                },
            }
        },
        TsType::TsUnionOrIntersectionType(TsUnionOrIntersectionType::TsIntersectionType(x)) => {
            let s = lower_intersection(az, x);
            Step {
                az: s.az,
                node: TsType::TsUnionOrIntersectionType(
                    TsUnionOrIntersectionType::TsIntersectionType(s.node),
                ),
                out: match s.out {
                    Ok(v) => Ok(Type::Intersection(v)),
                    Err(e) => Err(e),
                },
            }
        },
        TsType::TsArrayType(x) => {
            let s = lower_array(az, x);
            Step {
                az: s.az,
                node: TsType::TsArrayType(s.node),
                out: match s.out {
                    Ok(v) => Ok(Type::Array(v)),
                    Err(e) => Err(e),
                },
            }
        },
        TsType::TsFnOrConstructorType(TsFnOrConstructorType::TsFnType(x)) => {
            let s = lower_fn_type(az, x);
            Step {
                az: s.az,
                node: TsType::TsFnOrConstructorType(TsFnOrConstructorType::TsFnType(s.node)),
                out: match s.out {
                    Ok(v) => Ok(Type::Function(v)),
                    Err(e) => Err(e),
                },
            }
        },
        TsType::TsFnOrConstructorType(TsFnOrConstructorType::TsConstructorType(x)) => {
            let s = lower_ctor_type(az, x);
            Step {
                az: s.az,
                node: TsType::TsFnOrConstructorType(
                    TsFnOrConstructorType::TsConstructorType(s.node),
                ),
                out: match s.out {
                    Ok(v) => Ok(Type::Constructor(v)),
                    Err(e) => Err(e),
                },
            }
        },
        TsType::TsTypeLit(x) => {
            let s = lower_type_lit(az, x);
            Step {
                az: s.az,
                node: TsType::TsTypeLit(s.node),
                out: match s.out {
                    Ok(v) => Ok(Type::TypeLit(v)),
                    Err(e) => Err(e),
                },
            }
        },
        TsType::TsConditionalType(x) => {
            let s = lower_conditional(az, x);
            Step {
                az: s.az,
                node: TsType::TsConditionalType(s.node),
                out: match s.out {
                    Ok(v) => Ok(Type::Conditional(v)),
                    Err(e) => Err(e),
                },
            }
        },
        TsType::TsMappedType(x) => {
            let s = lower_mapped(az, x);
            Step {
                az: s.az,
                node: TsType::TsMappedType(s.node),
                out: match s.out {
                    Ok(v) => Ok(Type::Mapped(v)),
                    Err(e) => Err(e),
                },
            }
        },
        TsType::TsTypeOperator(x) => {
            let s = lower_operator(az, x);
            Step {
                az: s.az,
                node: TsType::TsTypeOperator(s.node),
                out: match s.out {
                    Ok(v) => Ok(Type::Operator(v)),
                    Err(e) => Err(e),
                },
            }
        },
        TsType::TsParenthesizedType(x) => {
            let s = lower_paren(az, x);
            Step { az: s.az, node: TsType::TsParenthesizedType(s.node), out: s.out }
        },
        TsType::TsTypeRef(x) => {
            let s = lower_type_ref(az, x);
            Step { az: s.az, node: TsType::TsTypeRef(s.node), out: s.out }
        },
        TsType::TsTypeQuery(x) => {
            let s = lower_query(az, x);
            Step {
                az: s.az,
                node: TsType::TsTypeQuery(s.node),
                out: match s.out {
                    Ok(v) => Ok(Type::Query(v)),
                    Err(e) => Err(e),
                },
            }
        },
        TsType::TsOptionalType(x) => {
            let s = lower_optional(az, x);
            Step {
                az: s.az,
                node: TsType::TsOptionalType(s.node),
                out: match s.out {
                    Ok(v) => Ok(Type::Optional(v)),
                    Err(e) => Err(e),
                },
            }
        },
        TsType::TsRestType(x) => {
            let s = lower_rest(az, x);
            Step {
                az: s.az,
                node: TsType::TsRestType(s.node),
                out: match s.out {
                    Ok(v) => Ok(Type::Rest(v)),
                    Err(e) => Err(e),
                },
            }
        },
        TsType::TsInferType(x) => {
            let s = lower_infer(az, x);
            Step {
                az: s.az,
                node: TsType::TsInferType(s.node),
                out: match s.out {
                    Ok(v) => Ok(Type::Infer(v)),
                    Err(e) => Err(e),
                },
            }
        },
        TsType::TsIndexedAccessType(x) => {
            let s = lower_indexed(az, x);
            Step {
                az: s.az,
                node: TsType::TsIndexedAccessType(s.node),
                out: match s.out {
                    Ok(v) => Ok(Type::IndexedAccessType(v)),
                    Err(e) => Err(e),
                },
            }
        },
        TsType::TsTypePredicate(x) => {
            let s = lower_predicate(az, x);
            Step {
                az: s.az,
                node: TsType::TsTypePredicate(s.node),
                out: match s.out {
                    Ok(v) => Ok(Type::Predicate(v)),
                    Err(e) => Err(e),
                },
            }
        },
        TsType::TsImportType(x) => {
            let s = lower_import(az, x);
            Step {
                az: s.az,
                node: TsType::TsImportType(s.node),
                out: match s.out {
                    Ok(v) => Ok(Type::Import(v)),
                    Err(e) => Err(e),
                },
            }
        },
    }
}

/// One parent of an interface: its type arguments; the name is kept.
#[verifier::opaque]
pub open spec fn lower_extend(az: Analyzer, t: TsExprWithTypeArgs) -> Step<
    TsExprWithTypeArgs,
    TsExpr,
>
{
    let s = lower_opt_inst(az, t.type_args);
    Step {
        az: s.az,
        node: TsExprWithTypeArgs { span: t.span, expr: t.expr, type_args: s.node },
        out: match s.out {
            Ok(type_args) => Ok(TsExpr { span: t.span, expr: t.expr, type_args }),
            Err(e) => Err(e),
        },
    }
}

/// The parents of an interface, first to last, up to the first that
/// fails.
#[verifier::opaque]
pub open spec fn lower_extends(az: Analyzer, l: List<TsExprWithTypeArgs>) -> Step<
    List<TsExprWithTypeArgs>,
    List<TsExpr>,
>
    decreases l,
{
    match l {
        List::Nil => done(az, List::Nil, List::Nil),
        List::Cons(head, tail) => {
            let h = lower_extend(az, *head);
            match h.out {
                Err(e) => failed(h.az, List::Cons(Box::new(h.node), tail), e),
                Ok(v) => {
                    let t = lower_extends(h.az, *tail);
                    Step {
                        az: t.az,
                        node: List::Cons(Box::new(h.node), Box::new(t.node)),
                        out: match t.out {
                            Ok(vs) => Ok(List::Cons(Box::new(v), Box::new(vs))),
                            Err(e) => Err(e),
                        },
                    }
                },
            }
        },
    }
}

/// The body of an interface: its members.
#[verifier::opaque]
pub open spec fn lower_body(az: Analyzer, t: TsInterfaceBody) -> Step<
    TsInterfaceBody,
    List<TypeElement>,
> {
    let s = lower_elements(az, t.body);
    Step { az: s.az, node: TsInterfaceBody { span: t.span, body: s.node }, out: s.out }
}

/// The state after an attempt to register `ty` under `name`.
pub open spec fn registered(az: Analyzer, name: crate::ident::Id, ty: Type) -> Analyzer {
    if az.scope.type_outcome(name, ty) is Ok {
        az.with_scope(az.scope.with_type(name, ty))
    } else {
        az
    }
}

/// A type alias declaration.
///
/// In a scope of its own the type parameters and then the aliased type are
/// lowered; the type is marked as not to be unfolded unless an inference
/// position occurs in it. The scope is closed, and the alias is registered
/// in the scope around it. Any failure ends the step, with the scope
/// closed.
#[verifier::opaque]
pub open spec fn lower_alias(az: Analyzer, d: TsTypeAliasDecl) -> Step<TsTypeAliasDecl, Alias> {
    let tp = lower_opt_decl(az.in_child(ScopeKind::Flow), d.type_params);
    match tp.out {
        Err(e) => failed(tp.az.out_of_child(), TsTypeAliasDecl { type_params: tp.node, ..d }, e),
        Ok(type_params) => {
            let s = lower_type(tp.az, *d.type_ann);
            let node = TsTypeAliasDecl {
                span: d.span,
                id: d.id,
                type_params: tp.node,
                type_ann: Box::new(s.node),
            };
            match s.out {
                Err(e) => failed(s.az.out_of_child(), node, e),
                Ok(ty) => {
                    let alias = Alias {
                        span: d.span,
                        type_params,
                        ty: Box::new(
                            if has_infer(ty) {
                                ty
                            } else {
                                ty.marked(s.az.marks.no_expand_mark)
                            },
                        ),
                    };
                    let outer = s.az.out_of_child();
                    Step {
                        az: registered(outer, d.id.id(), Type::Alias(alias)),
                        node,
                        out: match outer.scope.type_outcome(d.id.id(), Type::Alias(alias)) {
                            Ok(_) => Ok(alias),
                            Err(e) => Err(e),
                        },
                    }
                },
            }
        },
    }
}

/// The first half of lowering an interface declaration.
///
/// A scope is opened, and in it the type parameters, the parents and the
/// members are lowered. The interface, marked as not to be unfolded, is
/// registered in that scope, so that what is resolved next can speak of it;
/// a failure to register it is recorded, and the step goes on. On success
/// the scope is left open; on failure it is closed.
#[verifier::opaque]
pub open spec fn opened_interface(az: Analyzer, d: TsInterfaceDecl) -> Step<
    TsInterfaceDecl,
    Interface,
> {
    let tp = lower_opt_decl(az.in_child(ScopeKind::Flow), d.type_params);
    match tp.out {
        Err(e) => failed(tp.az.out_of_child(), TsInterfaceDecl { type_params: tp.node, ..d }, e),
        Ok(type_params) => {
            let x = lower_extends(tp.az, d.extends);
            match x.out {
                Err(e) => failed(
                    x.az.out_of_child(),
                    TsInterfaceDecl { type_params: tp.node, extends: x.node, ..d },
                    e,
                ),
                Ok(extends) => {
                    let b = lower_body(x.az, d.body);
                    let node = TsInterfaceDecl {
                        span: d.span,
                        id: d.id,
                        type_params: tp.node,
                        extends: x.node,
                        body: b.node,
                    };
                    match b.out {
                        Err(e) => failed(b.az.out_of_child(), node, e),
                        Ok(body) => {
                            let ty = Interface {
                                span: d.span.marked(b.az.marks.no_expand_mark),
                                name: d.id.id(),
                                type_params,
                                extends,
                                body,
                            };
                            done(
                                match b.az.scope.type_outcome(ty.name, Type::Interface(ty)) {
                                    Ok(_) => registered(b.az, ty.name, Type::Interface(ty)),
                                    Err(e) => b.az.stored(e),
                                },
                                node,
                                ty,
                            )
                        },
                    }
                },
            }
        },
    }
}

/// The second half of lowering an interface declaration: the scope of the
/// interface is closed and the interface is registered in the scope around
/// it. A failure to register it ends the step.
#[verifier::opaque]
pub open spec fn closed_interface(az: Analyzer, ty: Interface) -> Outcome<Interface> {
    let outer = az.out_of_child();
    Outcome {
        az: registered(outer, ty.name, Type::Interface(ty)),
        out: match outer.scope.type_outcome(ty.name, Type::Interface(ty)) {
            Ok(_) => Ok(ty),
            Err(e) => Err(e),
        },
    }
}

/// An interface declaration, both halves in turn.
#[verifier::opaque]
pub open spec fn lower_interface(az: Analyzer, d: TsInterfaceDecl) -> Step<
    TsInterfaceDecl,
    Interface,
> {
    let o = opened_interface(az, d);
    match o.out {
        Err(e) => o,
        Ok(ty) => {
            let c = closed_interface(o.az, ty);
            Step { az: c.az, node: o.node, out: c.out }
        },
    }
}

/// A reference to a type by its bare name, as syntax.
pub open spec fn bare_reference(span: Span, name: crate::ident::Ident) -> TsType {
    TsType::TsTypeRef(TsTypeRef { span, name: TsEntityName::Ident(name), type_params: None })
}

/// Lowering a reference to a name that the innermost scope binds to a
/// placeholder gives that placeholder and changes nothing, in every state
/// that continues the one in which the name was bound: inside a constraint
/// or default, and at every later use in the same scope, a type parameter is
/// the very placeholder of its declaration.
pub proof fn reference_to_bound_name_lowers_to_its_placeholder(
    before: Analyzer,
    now: Analyzer,
    span: Span,
    name: crate::ident::Ident,
)
    requires
        now.continues(before),
        placeholder_of(before.scope.current.types, name.id()) is Some,
    ensures
        placeholder_of(now.scope.current.types, name.id()) is Some,
        lower_type(now, bare_reference(span, name)) == done(
            now,
            bare_reference(span, name),
            Type::Param(placeholder_of(now.scope.current.types, name.id())->Some_0),
        ),
        placeholder_of(now.scope.current.types, name.id())->Some_0.slot == placeholder_of(
            before.scope.current.types,
            name.id(),
        )->Some_0.slot,
{
    let t = TsTypeRef { span, name: TsEntityName::Ident(name), type_params: None };
    bound_reference_is_its_placeholder(before, now, span, name, None);
    reference_lowers_as_its_name_resolves(now, t);
    bare_reference_lowers_as_a_reference(now, t);
}

/// Lowering a reference to a name that no scope binds to a placeholder, and
/// that is not written with arguments, gives a reference left for a later
/// pass and changes nothing: a name that is declared only later, or is being
/// declared, is no failure.
pub proof fn reference_to_unbound_name_is_deferred(
    az: Analyzer,
    span: Span,
    name: crate::ident::Ident,
)
    requires
        az.scope.resolved(name.id()) is None,
    ensures
        lower_type(az, bare_reference(span, name)) == done(
            az,
            bare_reference(span, name),
            Type::Ref(Ref { span, name: TsEntityName::Ident(name), type_args: None }),
        ),
{
    let t = TsTypeRef { span, name: TsEntityName::Ident(name), type_params: None };
    reference_lowers_as_its_name_resolves(az, t);
    bare_reference_lowers_as_a_reference(az, t);
}

/// A type that is a type reference lowers as the reference does.
proof fn bare_reference_lowers_as_a_reference(az: Analyzer, t: TsTypeRef)
    ensures
        lower_type(az, TsType::TsTypeRef(t)) == (Step {
            az: lower_type_ref(az, t).az,
            node: TsType::TsTypeRef(lower_type_ref(az, t).node),
            out: lower_type_ref(az, t).out,
        }),
{
    reveal(lower_type);
    reveal(lower_type_ref);
}

/// The constraint `Op<T>`, as syntax.
pub open spec fn applied_to(
    span: Span,
    op: crate::ident::Ident,
    args: Span,
    inner: Span,
    t: crate::ident::Ident,
) -> TsType {
    TsType::TsTypeRef(
        TsTypeRef {
            span,
            name: TsEntityName::Ident(op),
            type_params: Some(
                TsTypeParamInstantiation {
                    span: args,
                    params: List::Cons(Box::new(bare_reference(inner, t)), Box::new(List::Nil)),
                },
            ),
        },
    )
}

/// A constraint `Op<T>` on a type parameter `T` that the innermost scope
/// binds to a placeholder, where `Op` is no type parameter in scope and not
/// `Array`: it lowers to the reference `Op` applied to the placeholder of `T`
/// itself, and the state is left as it was.
pub proof fn self_reference_in_a_constraint(
    az: Analyzer,
    span: Span,
    op: crate::ident::Ident,
    args: Span,
    inner: Span,
    t: crate::ident::Ident,
)
    requires
        placeholder_of(az.scope.current.types, t.id()) is Some,
        az.scope.resolved(op.id()) is None,
        op.sym@ != "Array"@,
    ensures
        lower_type(az, applied_to(span, op, args, inner, t)) == done(
            az,
            applied_to(span, op, args, inner, t),
            Type::Ref(
                Ref {
                    span,
                    name: TsEntityName::Ident(op),
                    type_args: Some(
                        TypeParamInstantiation {
                            span: args,
                            params: List::Cons(
                                Box::new(
                                    Type::Param(
                                        placeholder_of(az.scope.current.types, t.id())->Some_0,
                                    ),
                                ),
                                Box::new(List::Nil),
                            ),
                        },
                    ),
                },
            ),
        ),
{
    reference_to_bound_name_lowers_to_its_placeholder(az, az, inner, t);
    let list = List::Cons(Box::new(bare_reference(inner, t)), Box::new(List::<TsType>::Nil));
    let inst = TsTypeParamInstantiation { span: args, params: list };
    let outer = TsTypeRef { span, name: TsEntityName::Ident(op), type_params: Some(inst) };
    let ph = placeholder_of(az.scope.current.types, t.id())->Some_0;
    assert(lower_types(az, List::<TsType>::Nil) == done(
        az,
        List::<TsType>::Nil,
        List::<Type>::Nil,
    )) by {
        reveal(lower_types);
        reveal(lower_type);
    }
    assert(lower_types(az, list) == done(
        az,
        list,
        List::Cons(Box::new(Type::Param(ph)), Box::new(List::<Type>::Nil)),
    )) by {
        reveal(lower_types);
        reveal(lower_type);
    }
    assert(lower_opt_inst(az, Some(inst)) == done(
        az,
        Some(inst),
        Some(
            TypeParamInstantiation {
                span: args,
                params: List::Cons(Box::new(Type::Param(ph)), Box::new(List::<Type>::Nil)),
            },
        ),
    )) by {
        reveal(lower_opt_inst);
        reveal(lower_inst);
        reveal(lower_types);
    }
    let lowered = Some(
        TypeParamInstantiation {
            span: args,
            params: List::Cons(Box::new(Type::Param(ph)), Box::new(List::<Type>::Nil)),
        },
    );
    reference_lowers_as_its_name_resolves(az, outer);
    unbound_reference_is_deferred(az.scope, span, TsEntityName::Ident(op), lowered);
    assert(lower_type_ref(az, outer).out == Ok::<Type, Error>(
        Type::Ref(Ref { span, name: TsEntityName::Ident(op), type_args: lowered }),
    ));
    assert(lower_type_ref(az, outer).node == outer);
    bare_reference_lowers_as_a_reference(az, outer);
}

} // verus!
