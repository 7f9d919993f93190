//! Lowering: from type annotations as written to semantic types.
//!
//! Every function here lowers one kind of syntax. It takes the state of the
//! pass and the syntax, and hands back a [`Step`]: the state after, the
//! syntax with the annotations that lowering wrote into it, and the result.
//!
//! The contract of each function says:
//! * that the step is exactly the one that [`crate::lower`] defines for that
//!   kind of syntax;
//! * that the state after continues the state before: the scopes around the
//!   innermost are untouched, every name that the innermost scope bound to a
//!   placeholder still resolves to the placeholder in that slot, and the
//!   findings recorded before are still there, in their order;
//! * that the step fails for no other reason than that no placeholder slot
//!   is left (a declaration may also fail because its name is taken);
//! * that it takes no more slots than the syntax weighs, and succeeds
//!   whenever that many slots are left.
//!
//! Where there is more to say, the contract says it: a list of members comes
//! out one for one; a property without annotation is `any`; after a type
//! parameter declaration a reference to each parameter is its placeholder;
//! the type parameters of a method are placeholders of the method's own,
//! from the registry's next slot on; a declaration that succeeds leaves its
//! name bound to what it declared.
//!
//! The steps on declarations and on types can also be made in place, on
//! `&mut` state and syntax: see [`Analyzer::validate_in_place`] and its
//! neighbours.

use vstd::prelude::*;
use crate::analyzer::Analyzer;
use crate::ast::{
    ArrayPat, BindingIdent, ObjectPat, RestPat, TsArrayType, TsCallSignatureDecl,
    TsConditionalType, TsConstructSignatureDecl, TsConstructorType, TsExprWithTypeArgs,
    TsFnOrConstructorType, TsFnParam, TsFnType, TsImportType, TsIndexSignature,
    TsIndexedAccessType, TsInferType, TsInterfaceBody, TsInterfaceDecl, TsIntersectionType,
    TsKeywordType, TsKeywordTypeKind, TsLitType, TsMappedType, TsMethodSignature, TsOptionalType,
    TsParenthesizedType, TsPropertySignature, TsRestType, TsThisType, TsTupleElement, TsTupleType,
    TsType, TsTypeAliasDecl, TsTypeAnn, TsTypeElement, TsTypeLit, TsTypeOperator, TsTypeParam,
    TsTypeParamDecl, TsTypeParamInstantiation, TsTypePredicate, TsTypeQuery, TsTypeQueryExpr,
    TsTypeRef, TsUnionOrIntersectionType, TsUnionType,
};
use crate::default_any::default_any_params;
use crate::errors::Error;
use crate::expr::{Expr, TsEntityName};
use crate::ident::{Id, Ident};
use crate::list::List;
use crate::lower::{
    Outcome, Step, TypedProperty, all_bound, all_from, all_kept, all_resolve, any_ann,
    bound_parameters_keep_their_identity, bound_parameters_resolve, closed_interface, lower_alias,
    lower_ann, lower_array, lower_body, lower_call_sig, lower_conditional, lower_construct_sig,
    lower_ctor_type, lower_decl, lower_element, lower_elements, lower_extend, lower_extends,
    lower_fn_param, lower_fn_params, lower_fn_type, lower_import, lower_index_sig, lower_indexed,
    lower_infer, lower_inst, lower_interface, lower_intersection, lower_mapped, lower_method_sig,
    lower_operator, lower_opt_ann, lower_opt_decl, lower_opt_inst, lower_opt_type, lower_optional,
    lower_paren, lower_predicate, lower_property_sig, lower_query, lower_query_expr, lower_rest,
    lower_tparam, lower_tparams, lower_tuple, lower_tuple_elem, lower_tuple_elems, lower_type,
    lower_type_lit, lower_type_ref, lower_types, lower_union, method_scope, opened_interface,
    param_ty, placeholders_stay_from, preregistered, preregistering_binds_all,
    preregistering_is_from, recovered, registered, resolved_ref, single_arg,
};
use crate::scope::{
    ScopeKind, bindings_from, closing_continues, declared_as, placeholder_of, registering_declares,
    with_param_binds, with_param_continues, with_type_continues,
};
use crate::span::{dummy_sp, Span};
use crate::ty::{
    Alias, Array, CallSignature, Conditional, Constructor, ConstructorSignature, FnParam, Function,
    ImportType, IndexSignature, IndexedAccessType, InferType, Interface, Intersection, Mapped,
    MethodSignature, Operator, OptionalType, ParamPat, Placeholder, Predicate, PropertySignature,
    QueryExpr, QueryType, Ref, RestType, TsExpr, Tuple, TupleElement, Type, TypeElement, TypeLit,
    TypeParam, TypeParamDecl, TypeParamInstantiation, Union, any_type,
};
use crate::type_eq::type_alike;
use crate::util::contains_infer_type;
use crate::weight::{
    annotation_is_lighter, defaulted_params_weight, parameters_weigh_their_number, w_alias, w_ann,
    w_array, w_call_sig, w_conditional, w_construct_sig, w_ctor_type, w_decl, w_element,
    w_elements, w_extends, w_fn_param, w_fn_params, w_fn_type, w_import, w_index_sig, w_indexed,
    w_infer, w_inst, w_interface, w_intersection, w_mapped, w_method_sig, w_operator, w_opt_ann,
    w_opt_decl, w_opt_inst, w_opt_type, w_optional, w_paren, w_predicate, w_property_sig, w_query,
    w_query_expr, w_rest, w_tparam, w_tparams, w_tuple, w_tuple_elem, w_tuple_elems, w_type,
    w_type_lit, w_type_ref, w_types, w_union,
};

verus! {

/// Tells whether a symbol is the name of the built-in array type.
fn is_array_name(sym: &String) -> (b: bool)
    ensures
        b == (sym@ == "Array"@),
{
    let array = "Array".to_string();
    *sym == array
}

/// Takes the only type argument out, where exactly one was given; hands the
/// arguments back as they were otherwise.
fn take_single(args: Option<TypeParamInstantiation>) -> (r: Result<
    Box<Type>,
    Option<TypeParamInstantiation>,
>)
    ensures
        match single_arg(args) {
            Some(t) => r == Ok::<Box<Type>, Option<TypeParamInstantiation>>(Box::new(t)),
            None => r == Err::<Box<Type>, Option<TypeParamInstantiation>>(args),
        },
{
    match args {
        Some(inst) => {
            let span = inst.span;
            match inst.params {
                List::Cons(first, rest) => {
                    if rest.is_empty() {
                        Ok(first)
                    } else {
                        Err(Some(TypeParamInstantiation { span, params: List::Cons(first, rest) }))
                    }
                },
                List::Nil => Err(Some(TypeParamInstantiation { span, params: List::Nil })),
            }
        },
        None => Err(None),
    }
}

/// The type of a parameter: what its annotation gave, or `any`.
fn param_type(ty: Option<Box<Type>>, span: Span) -> (t: Type)
    ensures
        t == param_ty(ty, span),
{
    match ty {
        Some(t) => *t,
        None => Type::any(span),
    }
}

fn any_annotation(span: Span) -> (a: TsTypeAnn)
    ensures
        a == any_ann(span),
{
    TsTypeAnn {
        span,
        type_ann: Box::new(
            TsType::TsKeywordType(TsKeywordType { span, kind: TsKeywordTypeKind::TsAnyKeyword }),
        ),
    }
}

/// Settles the type of a property signature from what lowering its
/// annotation gave: the type that was lowered, or `any` where there was no
/// annotation or it could not be lowered. In both of the latter cases the
/// syntax is given the annotation `any`. Only a lowering that failed is
/// recorded as a finding; a missing annotation is none.
pub fn recover(s: Step<Option<TsTypeAnn>, Option<Box<Type>>>, span: Span) -> (r: TypedProperty)
    ensures
        r == recovered(s, span),
        r.az.continues(s.az),
{
    match s.out {
        Ok(Some(v)) => TypedProperty { az: s.az, node: s.node, ty: *v },
        Ok(None) => TypedProperty {
            az: s.az,
            node: Some(any_annotation(span)),
            ty: Type::any(span),
        },
        Err(e) => TypedProperty {
            az: s.az.record(e),
            node: Some(any_annotation(span)),
            ty: Type::any(span),
        },
    }
}

impl Analyzer {
    /// This state with `e` recorded.
    pub fn record(self, e: Error) -> (a: Analyzer)
        ensures
            a == self.stored(e),
            a.continues(self),
            a.errors@ == self.errors@.push(e),
    {
        proof {
            self.storing_continues(e);
        }
        let mut a = self;
        a.store(e);
        a
    }

    /// This state after the computed key `key` was checked.
    pub fn check_key(self, key: &Expr) -> (a: Analyzer)
        ensures
            a == self.key_checked(*key),
            a.continues(self),
    {
        proof {
            self.checking_a_key_continues(*key);
        }
        let mut a = self;
        a.validate_computed_prop_key(key);
        a
    }

    /// This state inside a new scope.
    pub fn enter(self, kind: ScopeKind) -> (a: Analyzer)
        ensures
            a == self.in_child(kind),
    {
        let mut a = self;
        a.scope.push_scope(kind);
        a
    }

    /// This state with the innermost scope closed.
    pub fn leave(self) -> (a: Analyzer)
        ensures
            a == self.out_of_child(),
    {
        let mut a = self;
        a.scope.pop_scope();
        a
    }

    /// Registers a type parameter in the innermost scope.
    pub fn register_param(self, param: TypeParam) -> (r: (Analyzer, Result<Placeholder, Error>))
        ensures
            r.0 == self.with_scope(self.scope.with_param(param)),
            r.1 == self.scope.param_outcome(param),
            r.0.continues(self),
            r.1 matches Err(e) ==> e is TooManyTypeParams,
            r.1 matches Ok(ph) ==> placeholder_of(r.0.scope.current.types, param.name) == Some(ph),
    {
        proof {
            with_param_continues(self.scope, param);
            if self.scope.param_outcome(param) is Ok {
                with_param_binds(self.scope, param);
            }
        }
        let mut a = self;
        let out = a.scope.register_param(param);
        (a, out)
    }

    /// Registers a type under `name` in the innermost scope.
    pub fn register_type(self, name: Id, ty: Type) -> (r: (Analyzer, Result<(), Error>))
        ensures
            r.0 == registered(self, name, ty),
            r.1 == self.scope.type_outcome(name, ty),
            r.1 matches Err(e) ==> e is DuplicateName,
            !(ty is Param) ==> r.0.continues(self),
    {
        proof {
            if !(ty is Param) {
                with_type_continues(self.scope, name, ty);
            }
        }
        let mut a = self;
        let out = a.scope.register_type(name, ty);
        (a, out)
    }

    /// Resolves a reference to `name` whose type arguments are lowered
    /// already.
    ///
    /// `Array` with exactly one argument is the array of that argument,
    /// whatever the scopes hold. Otherwise an identifier that some scope
    /// binds to a placeholder gives that placeholder, the innermost first.
    /// Every other name gives a reference left for a later pass: that a name
    /// is unknown is no failure.
    pub fn resolve_type_ref(
        &self,
        span: Span,
        name: &TsEntityName,
        type_args: Option<TypeParamInstantiation>,
    ) -> (ty: Type)
        ensures
            ty == resolved_ref(self.scope, span, *name, type_args),
    {
        match name {
            TsEntityName::Ident(i) => {
                let type_args = if is_array_name(&i.sym) {
                    match take_single(type_args) {
                        Ok(elem_type) => {
                            return Type::Array(Array { span, elem_type });
                        },
                        Err(back) => back,
                    }
                } else {
                    type_args
                };
                match self.scope.find_param(&i.to_id()) {
                    Some(ph) => Type::Param(ph),
                    None => Type::Ref(Ref { span, name: name.clone(), type_args }),
                }
            },
            _ => Type::Ref(Ref { span, name: name.clone(), type_args }),
        }
    }

    /// Registers every parameter of a declaration as an open placeholder,
    /// first to last, and stops at the first that cannot be registered.
    pub fn preregister(self, params: &List<TsTypeParam>) -> (r: Outcome<()>)
        ensures
            r == preregistered(self, *params),
            r.az.continues(self),
            r.out matches Err(e) ==> e is TooManyTypeParams,
            r.az.scope.next_slot <= self.scope.next_slot + params.len(),
            self.scope.next_slot + params.len() < u64::MAX ==> r.out is Ok,
        decreases *params,
    {
        match params {
            List::Nil => Outcome { az: self, out: Ok(()) },
            List::Cons(p, rest) => {
                let open = TypeParam {
                    span: p.span,
                    name: p.name.to_id(),
                    constraint: None,
                    default: None,
                };
                let (az, registered) = self.register_param(open);
                match registered {
                    Ok(_) => az.preregister(rest),
                    Err(e) => Outcome { az, out: Err(e) },
                }
            },
        }
    }

    /// Lowers a type where there is one.
    #[verifier::spinoff_prover]
    pub fn validate_opt_type(self, o: Option<Box<TsType>>) -> (s: Step<
        Option<Box<TsType>>,
        Option<Box<Type>>,
    >)
        ensures
            s == lower_opt_type(self, o),
            s.az.continues(self),
            s.out matches Err(e) ==> e is TooManyTypeParams,
            s.az.scope.next_slot <= self.scope.next_slot + w_opt_type(o),
            self.scope.next_slot + w_opt_type(o) < u64::MAX ==> s.out is Ok,
        decreases w_opt_type(o),
    {
        proof {
            reveal(w_opt_type);
            reveal(w_type);
            reveal(lower_opt_type);
            reveal(lower_type);
        }
        match o {
            None => Step { az: self, node: None, out: Ok(None) },
            Some(x) => {
                let s = self.validate(*x);
                Step {
                    az: s.az,
                    node: Some(Box::new(s.node)),
                    out: match s.out {
                        Ok(v) => Ok(Some(Box::new(v))),
                        Err(e) => Err(e),
                    },
                }
            },
        }
    }

    /// Lowers the type under an annotation.
    #[verifier::spinoff_prover]
    pub fn validate_type_ann(self, a: TsTypeAnn) -> (s: Step<TsTypeAnn, Type>)
        ensures
            s == lower_ann(self, a),
            s.az.continues(self),
            s.out matches Err(e) ==> e is TooManyTypeParams,
            s.az.scope.next_slot <= self.scope.next_slot + w_ann(a),
            self.scope.next_slot + w_ann(a) < u64::MAX ==> s.out is Ok,
        decreases w_ann(a),
    {
        proof {
            reveal(w_ann);
            reveal(w_type);
            reveal(lower_ann);
            reveal(lower_type);
        }
        let span = a.span;
        let s = self.validate(*a.type_ann);
        Step { az: s.az, node: TsTypeAnn { span, type_ann: Box::new(s.node) }, out: s.out }
    }

    /// Lowers an annotation where there is one.
    #[verifier::spinoff_prover]
    pub fn validate_opt_type_ann(self, o: Option<TsTypeAnn>) -> (s: Step<
        Option<TsTypeAnn>,
        Option<Box<Type>>,
    >)
        ensures
            s == lower_opt_ann(self, o),
            s.az.continues(self),
            s.out matches Err(e) ==> e is TooManyTypeParams,
            s.az.scope.next_slot <= self.scope.next_slot + w_opt_ann(o),
            self.scope.next_slot + w_opt_ann(o) < u64::MAX ==> s.out is Ok,
        decreases w_opt_ann(o),
    {
        proof {
            reveal(w_opt_ann);
            reveal(w_ann);
            reveal(lower_opt_ann);
            reveal(lower_ann);
        }
        match o {
            None => Step { az: self, node: None, out: Ok(None) },
            Some(x) => {
                let s = self.validate_type_ann(x);
                Step {
                    az: s.az,
                    node: Some(s.node),
                    out: match s.out {
                        Ok(v) => Ok(Some(Box::new(v))),
                        Err(e) => Err(e),
                    },
                }
            },
        }
    }

    /// Lowers one type parameter: its constraint, then its default; then
    /// registers the parameter with both.
    #[verifier::spinoff_prover]
    pub fn validate_type_param(self, p: TsTypeParam) -> (s: Step<TsTypeParam, TypeParam>)
        ensures
            s == lower_tparam(self, p),
            s.az.continues(self),
            s.out matches Err(e) ==> e is TooManyTypeParams,
            s.out matches Ok(param) ==> param.name == p.name.id() && placeholder_of(
                s.az.scope.current.types,
                p.name.id(),
            ) is Some,
            s.az.scope.next_slot <= self.scope.next_slot + w_tparam(p),
            self.scope.next_slot + w_tparam(p) < u64::MAX ==> s.out is Ok,
        decreases w_tparam(p),
    {
        proof {
            reveal(w_tparam);
            reveal(w_opt_type);
            reveal(lower_tparam);
            reveal(lower_opt_type);
        }
        let TsTypeParam { span, name, constraint, default } = p;
        let c = self.validate_opt_type(constraint);
        match c.out {
            Err(e) => Step {
                az: c.az,
                node: TsTypeParam { span, name, constraint: c.node, default },
                out: Err(e),
            },
            Ok(constraint) => {
                let d = c.az.validate_opt_type(default);
                match d.out {
                    Err(e) => Step {
                        az: d.az,
                        node: TsTypeParam { span, name, constraint: c.node, default: d.node },
                        out: Err(e),
                    },
                    Ok(default) => {
                        let param = TypeParam { span, name: name.to_id(), constraint, default };
                        let (az, registered) = d.az.register_param(param.clone());
                        Step {
                            az,
                            node: TsTypeParam { span, name, constraint: c.node, default: d.node },
                            out: match registered {
                                Ok(_) => Ok(param),
                                Err(e) => Err(e),
                            },
                        }
                    },
                }
            },
        }
    }

    /// Lowers type parameters, first to last, up to the first failure.
    #[verifier::spinoff_prover]
    pub fn validate_type_params(self, l: List<TsTypeParam>) -> (s: Step<
        List<TsTypeParam>,
        List<TypeParam>,
    >)
        ensures
            s == lower_tparams(self, l),
            s.az.continues(self),
            s.out matches Err(e) ==> e is TooManyTypeParams,
            s.az.scope.next_slot + l.len() <= self.scope.next_slot + w_tparams(l),
            self.scope.next_slot + w_tparams(l) < u64::MAX + l.len() ==> s.out is Ok,
        decreases w_tparams(l),
    {
        proof {
            reveal(w_tparams);
            reveal(w_tparam);
            reveal(lower_tparams);
            reveal(lower_tparam);
        }
        match l {
            List::Nil => Step { az: self, node: List::Nil, out: Ok(List::Nil) },
            List::Cons(head, tail) => {
                proof {
                    parameters_weigh_their_number(*tail);
                }
                let h = self.validate_type_param(*head);
                match h.out {
                    Err(e) => Step {
                        az: h.az,
                        node: List::Cons(Box::new(h.node), tail),
                        out: Err(e),
                    },
                    Ok(v) => {
                        let t = h.az.validate_type_params(*tail);
                        Step {
                            az: t.az,
                            node: List::Cons(Box::new(h.node), Box::new(t.node)),
                            out: match t.out {
                                Ok(vs) => Ok(List::Cons(Box::new(v), Box::new(vs))),
                                Err(e) => Err(e),
                            },
                        }
                    },
                }
            },
        }
    }

    /// Lowers a type parameter declaration.
    ///
    /// Unless the declaration is built in, every parameter is first registered
    /// as an open placeholder, so that each constraint and default may speak
    /// of any parameter of the declaration.
    #[verifier::spinoff_prover]
    pub fn validate_type_param_decl(self, d: TsTypeParamDecl) -> (s: Step<
        TsTypeParamDecl,
        TypeParamDecl,
    >)
        ensures
            s == lower_decl(self, d),
            s.az.continues(self),
            s.out matches Err(e) ==> e is TooManyTypeParams,
            !self.is_builtin && s.out is Ok ==> all_bound(s.az, d.params) && all_kept(
                preregistered(self, d.params).az,
                s.az,
                d.params,
            ),
            !self.is_builtin && s.out is Ok ==> all_resolve(s.az, d.params),
            !self.is_builtin && s.out is Ok && bindings_from(
                self.scope.current.types,
                self.scope.next_slot,
            ) ==> all_from(s.az, d.params, self.scope.next_slot),
            s.az.scope.next_slot <= self.scope.next_slot + w_decl(d),
            self.scope.next_slot + w_decl(d) < u64::MAX ==> s.out is Ok,
        decreases w_decl(d),
    {
        proof {
            reveal(w_decl);
            reveal(w_tparams);
            reveal(lower_decl);
            reveal(lower_tparams);
        }
        let span = d.span;
        proof {
            parameters_weigh_their_number(d.params);
        }
        let pre = if self.is_builtin {
            Outcome { az: self, out: Ok(()) }
        } else {
            self.preregister(&d.params)
        };
        match pre.out {
            Err(e) => Step { az: pre.az, node: d, out: Err(e) },
            Ok(_) => {
                let s = pre.az.validate_type_params(d.params);
                proof {
                    if !self.is_builtin {
                        preregistering_binds_all(self, d.params);
                        bound_parameters_keep_their_identity(pre.az, s.az, d.params);
                        bound_parameters_resolve(s.az, d.params);
                        if bindings_from(self.scope.current.types, self.scope.next_slot) {
                            preregistering_is_from(self, d.params, self.scope.next_slot);
                            placeholders_stay_from(
                                pre.az,
                                s.az,
                                d.params,
                                self.scope.next_slot,
                            );
                        }
                    }
                }
                Step {
                    az: s.az,
                    node: TsTypeParamDecl { span, params: s.node },
                    out: match s.out {
                        Ok(params) => Ok(TypeParamDecl { span, params }),
                        Err(e) => Err(e),
                    },
                }
            },
        }
    }

    /// Lowers a type parameter declaration where there is one.
    #[verifier::spinoff_prover]
    pub fn validate_opt_type_param_decl(self, o: Option<TsTypeParamDecl>) -> (s: Step<
        Option<TsTypeParamDecl>,
        Option<TypeParamDecl>,
    >)
        ensures
            s == lower_opt_decl(self, o),
            s.az.continues(self),
            s.out matches Err(e) ==> e is TooManyTypeParams,
            !self.is_builtin && s.out is Ok && o is Some ==> all_resolve(s.az, o->Some_0.params),
            !self.is_builtin && s.out is Ok && o is Some && bindings_from(
                self.scope.current.types,
                self.scope.next_slot,
            ) ==> all_from(s.az, o->Some_0.params, self.scope.next_slot),
            s.az.scope.next_slot <= self.scope.next_slot + w_opt_decl(o),
            self.scope.next_slot + w_opt_decl(o) < u64::MAX ==> s.out is Ok,
        decreases w_opt_decl(o),
    {
        proof {
            reveal(w_opt_decl);
            reveal(w_decl);
            reveal(lower_opt_decl);
            reveal(lower_decl);
        }
        match o {
            None => Step { az: self, node: None, out: Ok(None) },
            Some(x) => {
                let s = self.validate_type_param_decl(x);
                Step {
                    az: s.az,
                    node: Some(s.node),
                    out: match s.out {
                        Ok(v) => Ok(Some(v)),
                        Err(e) => Err(e),
                    },
                }
            },
        }
    }

    /// Lowers types, first to last, up to the first failure.
    #[verifier::spinoff_prover]
    pub fn validate_types(self, l: List<TsType>) -> (s: Step<List<TsType>, List<Type>>)
        ensures
            s == lower_types(self, l),
            s.az.continues(self),
            s.out matches Err(e) ==> e is TooManyTypeParams,
            s.az.scope.next_slot <= self.scope.next_slot + w_types(l),
            self.scope.next_slot + w_types(l) < u64::MAX ==> s.out is Ok,
        decreases w_types(l),
    {
        proof {
            reveal(w_types);
            reveal(w_type);
            reveal(lower_types);
            reveal(lower_type);
        }
        match l {
            List::Nil => Step { az: self, node: List::Nil, out: Ok(List::Nil) },
            List::Cons(head, tail) => {
                let h = self.validate(*head);
                match h.out {
                    Err(e) => Step {
                        az: h.az,
                        node: List::Cons(Box::new(h.node), tail),
                        out: Err(e),
                    },
                    Ok(v) => {
                        let t = h.az.validate_types(*tail);
                        Step {
                            az: t.az,
                            node: List::Cons(Box::new(h.node), Box::new(t.node)),
                            out: match t.out {
                                Ok(vs) => Ok(List::Cons(Box::new(v), Box::new(vs))),
                                Err(e) => Err(e),
                            },
                        }
                    },
                }
            },
        }
    }

    /// Lowers a list of type arguments.
    #[verifier::spinoff_prover]
    pub fn validate_type_param_instantiation(self, t: TsTypeParamInstantiation) -> (s: Step<
        TsTypeParamInstantiation,
        TypeParamInstantiation,
    >)
        ensures
            s == lower_inst(self, t),
            s.az.continues(self),
            s.out matches Err(e) ==> e is TooManyTypeParams,
            s.az.scope.next_slot <= self.scope.next_slot + w_inst(t),
            self.scope.next_slot + w_inst(t) < u64::MAX ==> s.out is Ok,
        decreases w_inst(t),
    {
        proof {
            reveal(w_inst);
            reveal(w_types);
            reveal(lower_inst);
            reveal(lower_types);
        }
        let span = t.span;
        let s = self.validate_types(t.params);
        Step {
            az: s.az,
            node: TsTypeParamInstantiation { span, params: s.node },
            out: match s.out {
                Ok(v) => Ok(TypeParamInstantiation { span, params: v }),
                Err(e) => Err(e),
            },
        }
    }

    /// Lowers a list of type arguments where there is one.
    #[verifier::spinoff_prover]
    pub fn validate_opt_type_param_instantiation(
        self,
        o: Option<TsTypeParamInstantiation>,
    ) -> (s: Step<
        Option<TsTypeParamInstantiation>,
        Option<TypeParamInstantiation>,
    >)
        ensures
            s == lower_opt_inst(self, o),
            s.az.continues(self),
            s.out matches Err(e) ==> e is TooManyTypeParams,
            s.az.scope.next_slot <= self.scope.next_slot + w_opt_inst(o),
            self.scope.next_slot + w_opt_inst(o) < u64::MAX ==> s.out is Ok,
        decreases w_opt_inst(o),
    {
        proof {
            reveal(w_opt_inst);
            reveal(w_inst);
            reveal(lower_opt_inst);
            reveal(lower_inst);
        }
        match o {
            None => Step { az: self, node: None, out: Ok(None) },
            Some(x) => {
                let s = self.validate_type_param_instantiation(x);
                Step {
                    az: s.az,
                    node: Some(s.node),
                    out: match s.out {
                        Ok(v) => Ok(Some(v)),
                        Err(e) => Err(e),
                    },
                }
            },
        }
    }

    /// Lowers one parameter. A parameter without an annotation is of type
    /// `any`. An identifier is required unless marked optional; an array or
    /// object pattern is required; a rest parameter is not.
    #[verifier::spinoff_prover]
    pub fn validate_fn_param(self, p: TsFnParam) -> (s: Step<TsFnParam, FnParam>)
        ensures
            s == lower_fn_param(self, p),
            s.az.continues(self),
            s.out matches Err(e) ==> e is TooManyTypeParams,
            s.az.scope.next_slot <= self.scope.next_slot + w_fn_param(p),
            self.scope.next_slot + w_fn_param(p) < u64::MAX ==> s.out is Ok,
        decreases w_fn_param(p),
    {
        proof {
            annotation_is_lighter(p);
            reveal(lower_fn_param);
            reveal(lower_opt_ann);
        }
        match p {
            TsFnParam::Ident(b) => {
                let s = self.validate_opt_type_ann(b.type_ann);
                let span = b.id.span;
                let required = !b.id.optional;
                let pat = ParamPat::Ident(b.id.clone());
                Step {
                    az: s.az,
                    node: TsFnParam::Ident(BindingIdent { id: b.id, type_ann: s.node }),
                    out: match s.out {
                        Ok(ty) => Ok(
                            FnParam { span, required, pat, ty: Box::new(param_type(ty, span)) },
                        ),
                        Err(e) => Err(e),
                    },
                }
            },
            TsFnParam::Array(a) => {
                let s = self.validate_opt_type_ann(a.type_ann);
                let span = a.span;
                Step {
                    az: s.az,
                    node: TsFnParam::Array(
                        ArrayPat { span, elems: a.elems, optional: a.optional, type_ann: s.node },
                    ),
                    out: match s.out {
                        Ok(ty) => Ok(
                            FnParam {
                                span,
                                required: true,
                                pat: ParamPat::Array,
                                ty: Box::new(param_type(ty, span)),
                            },
                        ),
                        Err(e) => Err(e),
                    },
                }
            },
            TsFnParam::Rest(r) => {
                let s = self.validate_opt_type_ann(r.type_ann);
                let span = r.span;
                Step {
                    az: s.az,
                    node: TsFnParam::Rest(RestPat { span, arg: r.arg, type_ann: s.node }),
                    out: match s.out {
                        Ok(ty) => Ok(
                            FnParam {
                                span,
                                required: false,
                                pat: ParamPat::Rest,
                                ty: Box::new(param_type(ty, span)),
                            },
                        ),
                        Err(e) => Err(e),
                    },
                }
            },
            TsFnParam::Object(o) => {
                let s = self.validate_opt_type_ann(o.type_ann);
                let span = o.span;
                Step {
                    az: s.az,
                    node: TsFnParam::Object(
                        ObjectPat { span, props: o.props, optional: o.optional, type_ann: s.node },
                    ),
                    out: match s.out {
                        Ok(ty) => Ok(
                            FnParam {
                                span,
                                required: true,
                                pat: ParamPat::Object,
                                ty: Box::new(param_type(ty, span)),
                            },
                        ),
                        Err(e) => Err(e),
                    },
                }
            },
        }
    }

    /// Lowers parameters, first to last, up to the first failure.
    #[verifier::spinoff_prover]
    pub fn validate_fn_params(self, l: List<TsFnParam>) -> (s: Step<List<TsFnParam>, List<FnParam>>)
        ensures
            s == lower_fn_params(self, l),
            s.az.continues(self),
            s.out matches Err(e) ==> e is TooManyTypeParams,
            s.az.scope.next_slot <= self.scope.next_slot + w_fn_params(l),
            self.scope.next_slot + w_fn_params(l) < u64::MAX ==> s.out is Ok,
        decreases w_fn_params(l),
    {
        proof {
            reveal(w_fn_params);
            reveal(w_fn_param);
            reveal(lower_fn_params);
            reveal(lower_fn_param);
        }
        match l {
            List::Nil => Step { az: self, node: List::Nil, out: Ok(List::Nil) },
            List::Cons(head, tail) => {
                let h = self.validate_fn_param(*head);
                match h.out {
                    Err(e) => Step {
                        az: h.az,
                        node: List::Cons(Box::new(h.node), tail),
                        out: Err(e),
                    },
                    Ok(v) => {
                        let t = h.az.validate_fn_params(*tail);
                        Step {
                            az: t.az,
                            node: List::Cons(Box::new(h.node), Box::new(t.node)),
                            out: match t.out {
                                Ok(vs) => Ok(List::Cons(Box::new(v), Box::new(vs))),
                                Err(e) => Err(e),
                            },
                        }
                    },
                }
            },
        }
    }

    /// Lowers a call signature: its parameters, then its type parameters,
    /// then its return type.
    #[verifier::spinoff_prover]
    pub fn validate_call_signature(self, d: TsCallSignatureDecl) -> (s: Step<
        TsCallSignatureDecl,
        CallSignature,
    >)
        ensures
            s == lower_call_sig(self, d),
            s.az.continues(self),
            s.out matches Err(e) ==> e is TooManyTypeParams,
            s.az.scope.next_slot <= self.scope.next_slot + w_call_sig(d),
            self.scope.next_slot + w_call_sig(d) < u64::MAX ==> s.out is Ok,
        decreases w_call_sig(d),
    {
        proof {
            reveal(w_call_sig);
            reveal(w_fn_params);
            reveal(w_opt_ann);
            reveal(w_opt_decl);
            reveal(lower_call_sig);
            reveal(lower_fn_params);
            reveal(lower_opt_ann);
            reveal(lower_opt_decl);
        }
        let TsCallSignatureDecl { span, params, type_ann, type_params } = d;
        let ps = self.validate_fn_params(params);
        match ps.out {
            Err(e) => Step {
                az: ps.az,
                node: TsCallSignatureDecl { span, params: ps.node, type_ann, type_params },
                out: Err(e),
            },
            Ok(params) => {
                let tp = ps.az.validate_opt_type_param_decl(type_params);
                match tp.out {
                    Err(e) => Step {
                        az: tp.az,
                        node: TsCallSignatureDecl {
                            span,
                            params: ps.node,
                            type_ann,
                            type_params: tp.node,
                        },
                        out: Err(e),
                    },
                    Ok(type_params) => {
                        let r = tp.az.validate_opt_type_ann(type_ann);
                        Step {
                            az: r.az,
                            node: TsCallSignatureDecl {
                                span,
                                params: ps.node,
                                type_ann: r.node,
                                type_params: tp.node,
                            },
                            out: match r.out {
                                Ok(ret_ty) => Ok(CallSignature {
                                    span,
                                    params,
                                    type_params,
                                    ret_ty,
                                }),
                                Err(e) => Err(e),
                            },
                        }
                    },
                }
            },
        }
    }

    /// Lowers a construct signature, as a call signature.
    #[verifier::spinoff_prover]
    pub fn validate_construct_signature(self, d: TsConstructSignatureDecl) -> (s: Step<
        TsConstructSignatureDecl,
        ConstructorSignature,
    >)
        ensures
            s == lower_construct_sig(self, d),
            s.az.continues(self),
            s.out matches Err(e) ==> e is TooManyTypeParams,
            s.az.scope.next_slot <= self.scope.next_slot + w_construct_sig(d),
            self.scope.next_slot + w_construct_sig(d) < u64::MAX ==> s.out is Ok,
        decreases w_construct_sig(d),
    {
        proof {
            reveal(w_construct_sig);
            reveal(w_fn_params);
            reveal(w_opt_ann);
            reveal(w_opt_decl);
            reveal(lower_construct_sig);
            reveal(lower_fn_params);
            reveal(lower_opt_ann);
            reveal(lower_opt_decl);
        }
        let TsConstructSignatureDecl { span, params, type_ann, type_params } = d;
        let ps = self.validate_fn_params(params);
        match ps.out {
            Err(e) => Step {
                az: ps.az,
                node: TsConstructSignatureDecl { span, params: ps.node, type_ann, type_params },
                out: Err(e),
            },
            Ok(params) => {
                let tp = ps.az.validate_opt_type_param_decl(type_params);
                match tp.out {
                    Err(e) => Step {
                        az: tp.az,
                        node: TsConstructSignatureDecl {
                            span,
                            params: ps.node,
                            type_ann,
                            type_params: tp.node,
                        },
                        out: Err(e),
                    },
                    Ok(type_params) => {
                        let r = tp.az.validate_opt_type_ann(type_ann);
                        Step {
                            az: r.az,
                            node: TsConstructSignatureDecl {
                                span,
                                params: ps.node,
                                type_ann: r.node,
                                type_params: tp.node,
                            },
                            out: match r.out {
                                Ok(ret_ty) => Ok(ConstructorSignature {
                                    span,
                                    params,
                                    type_params,
                                    ret_ty,
                                }),
                                Err(e) => Err(e),
                            },
                        }
                    },
                }
            },
        }
    }

    /// Lowers a property signature.
    ///
    /// A computed key is checked first, unless the declaration is built in.
    /// A missing annotation, and one that cannot be lowered, make the property
    /// `any`, and the syntax is given that annotation. A lowering that failed
    /// is recorded as a finding, a missing annotation is not; in both cases
    /// lowering goes on. A failure in the parameters or the type parameters
    /// ends the step.
    #[verifier::spinoff_prover]
    pub fn validate_property_signature(self, d: TsPropertySignature) -> (s: Step<
        TsPropertySignature,
        PropertySignature,
    >)
        ensures
            s == lower_property_sig(self, d),
            s.az.continues(self),
            s.out matches Err(e) ==> e is TooManyTypeParams,
            s.out matches Ok(p) ==> p.type_ann is Some,
            d.type_ann is None && s.out is Ok ==> s.node.type_ann == Some(any_ann(d.span))
                && s.out->Ok_0.type_ann == Some(Box::new(any_type(d.span))),
            d.params is Nil && d.type_params is None ==> s.out is Ok,
            s.az.scope.next_slot <= self.scope.next_slot + w_property_sig(d),
            self.scope.next_slot + w_property_sig(d) < u64::MAX ==> s.out is Ok,
        decreases w_property_sig(d),
    {
        proof {
            reveal(w_property_sig);
            reveal(w_fn_params);
            reveal(w_opt_ann);
            reveal(w_opt_decl);
            reveal(lower_property_sig);
            reveal(lower_fn_params);
            reveal(lower_opt_ann);
            reveal(lower_opt_decl);
        }
        let TsPropertySignature {
            span,
            readonly,
            key,
            computed,
            optional,
            init,
            params,
            type_ann,
            type_params,
        } = d;
        let az0 = if !self.is_builtin && computed {
            self.check_key(&key)
        } else {
            self
        };
        let ps = az0.validate_fn_params(params);
        match ps.out {
            Err(e) => Step {
                az: ps.az,
                node: TsPropertySignature {
                    span,
                    readonly,
                    key,
                    computed,
                    optional,
                    init,
                    params: ps.node,
                    type_ann,
                    type_params,
                },
                out: Err(e),
            },
            Ok(params) => {
                let ty = recover(ps.az.validate_opt_type_ann(type_ann), span);
                let tp = ty.az.validate_opt_type_param_decl(type_params);
                let lowered_key = Box::new((*key).clone());
                Step {
                    az: tp.az,
                    node: TsPropertySignature {
                        span,
                        readonly,
                        key,
                        computed,
                        optional,
                        init,
                        params: ps.node,
                        type_ann: ty.node,
                        type_params: tp.node,
                    },
                    out: match tp.out {
                        Ok(type_params) => Ok(
                            PropertySignature {
                                span,
                                readonly,
                                key: lowered_key,
                                computed,
                                optional,
                                params,
                                type_ann: Some(Box::new(ty.ty)),
                                type_params,
                            },
                        ),
                        Err(e) => Err(e),
                    },
                }
            },
        }
    }

    /// Lowers a method signature in a scope of its own: the check of its
    /// computed key; its type parameters; its parameters; its return type. The
    /// scope is closed again however the step ends.
    #[verifier::spinoff_prover]
    pub fn validate_method_signature(self, d: TsMethodSignature) -> (s: Step<
        TsMethodSignature,
        MethodSignature,
    >)
        ensures
            s == lower_method_sig(self, d),
            s.az.continues(self),
            s.out matches Err(e) ==> e is TooManyTypeParams,
            s.az.scope.current == self.scope.current,
            s.az.scope.parents == self.scope.parents,
            !self.is_builtin && d.type_params is Some && lower_opt_decl(
                method_scope(self, d),
                d.type_params,
            ).out is Ok ==> all_resolve(
                lower_opt_decl(method_scope(self, d), d.type_params).az,
                d.type_params->Some_0.params,
            ) && all_from(
                lower_opt_decl(method_scope(self, d), d.type_params).az,
                d.type_params->Some_0.params,
                self.scope.next_slot,
            ),
            s.az.scope.next_slot <= self.scope.next_slot + w_method_sig(d),
            self.scope.next_slot + w_method_sig(d) < u64::MAX ==> s.out is Ok,
        decreases w_method_sig(d),
    {
        proof {
            reveal(w_method_sig);
            reveal(w_fn_params);
            reveal(w_opt_ann);
            reveal(w_opt_decl);
            reveal(lower_method_sig);
            reveal(lower_fn_params);
            reveal(lower_opt_ann);
            reveal(lower_opt_decl);
        }
        let TsMethodSignature {
            span,
            readonly,
            key,
            computed,
            optional,
            params,
            type_ann,
            type_params,
        } = d;
        let az0 = if computed {
            self.enter(ScopeKind::Fn).check_key(&key)
        } else {
            self.enter(ScopeKind::Fn)
        };
        let tp = az0.validate_opt_type_param_decl(type_params);
        match tp.out {
            Err(e) => Step {
                az: tp.az.leave(),
                node: TsMethodSignature {
                    span,
                    readonly,
                    key,
                    computed,
                    optional,
                    params,
                    type_ann,
                    type_params: tp.node,
                },
                out: Err(e),
            },
            Ok(type_params) => {
                let ps = tp.az.validate_fn_params(params);
                match ps.out {
                    Err(e) => Step {
                        az: ps.az.leave(),
                        node: TsMethodSignature {
                            span,
                            readonly,
                            key,
                            computed,
                            optional,
                            params: ps.node,
                            type_ann,
                            type_params: tp.node,
                        },
                        out: Err(e),
                    },
                    Ok(params) => {
                        let r = ps.az.validate_opt_type_ann(type_ann);
                        let lowered_key = Box::new((*key).clone());
                        Step {
                            az: r.az.leave(),
                            node: TsMethodSignature {
                                span,
                                readonly,
                                key,
                                computed,
                                optional,
                                params: ps.node,
                                type_ann: r.node,
                                type_params: tp.node,
                            },
                            out: match r.out {
                                Ok(ret_ty) => Ok(
                                    MethodSignature {
                                        span,
                                        readonly,
                                        key: lowered_key,
                                        computed,
                                        optional,
                                        params,
                                        ret_ty,
                                        type_params,
                                    },
                                ),
                                Err(e) => Err(e),
                            },
                        }
                    },
                }
            },
        }
    }

    /// Lowers an index signature: its parameters, then its type.
    #[verifier::spinoff_prover]
    pub fn validate_index_signature(self, d: TsIndexSignature) -> (s: Step<
        TsIndexSignature,
        IndexSignature,
    >)
        ensures
            s == lower_index_sig(self, d),
            s.az.continues(self),
            s.out matches Err(e) ==> e is TooManyTypeParams,
            s.az.scope.next_slot <= self.scope.next_slot + w_index_sig(d),
            self.scope.next_slot + w_index_sig(d) < u64::MAX ==> s.out is Ok,
        decreases w_index_sig(d),
    {
        proof {
            reveal(w_index_sig);
            reveal(w_fn_params);
            reveal(w_opt_ann);
            reveal(lower_index_sig);
            reveal(lower_fn_params);
            reveal(lower_opt_ann);
        }
        let TsIndexSignature { params, type_ann, readonly, span } = d;
        let ps = self.validate_fn_params(params);
        match ps.out {
            Err(e) => Step {
                az: ps.az,
                node: TsIndexSignature { params: ps.node, type_ann, readonly, span },
                out: Err(e),
            },
            Ok(params) => {
                let r = ps.az.validate_opt_type_ann(type_ann);
                Step {
                    az: r.az,
                    node: TsIndexSignature { params: ps.node, type_ann: r.node, readonly, span },
                    out: match r.out {
                        Ok(type_ann) => Ok(IndexSignature { span, params, type_ann, readonly }),
                        Err(e) => Err(e),
                    },
                }
            },
        }
    }

    /// Lowers one member of a type literal or of an interface, by its kind.
    #[verifier::spinoff_prover]
    pub fn validate_type_element(self, e: TsTypeElement) -> (s: Step<TsTypeElement, TypeElement>)
        ensures
            s == lower_element(self, e),
            s.az.continues(self),
            s.out matches Err(e) ==> e is TooManyTypeParams,
            s.az.scope.next_slot <= self.scope.next_slot + w_element(e),
            self.scope.next_slot + w_element(e) < u64::MAX ==> s.out is Ok,
        decreases w_element(e),
    {
        proof {
            reveal(w_call_sig);
            reveal(w_construct_sig);
            reveal(w_element);
            reveal(w_index_sig);
            reveal(w_method_sig);
            reveal(w_property_sig);
            reveal(lower_call_sig);
            reveal(lower_construct_sig);
            reveal(lower_element);
            reveal(lower_index_sig);
            reveal(lower_method_sig);
            reveal(lower_property_sig);
        }
        match e {
            TsTypeElement::TsCallSignatureDecl(x) => {
                let s = self.validate_call_signature(x);
                Step {
                    az: s.az,
                    node: TsTypeElement::TsCallSignatureDecl(s.node),
                    out: match s.out {
                        Ok(v) => Ok(TypeElement::Call(v)),
                        Err(e) => Err(e),
                    },
                }
            },
            TsTypeElement::TsConstructSignatureDecl(x) => {
                let s = self.validate_construct_signature(x);
                Step {
                    az: s.az,
                    node: TsTypeElement::TsConstructSignatureDecl(s.node),
                    out: match s.out {
                        Ok(v) => Ok(TypeElement::Constructor(v)),
                        Err(e) => Err(e),
                    },
                }
            },
            TsTypeElement::TsPropertySignature(x) => {
                let s = self.validate_property_signature(x);
                Step {
                    az: s.az,
                    node: TsTypeElement::TsPropertySignature(s.node),
                    out: match s.out {
                        Ok(v) => Ok(TypeElement::Property(v)),
                        Err(e) => Err(e),
                    },
                }
            },
            TsTypeElement::TsMethodSignature(x) => {
                let s = self.validate_method_signature(x);
                Step {
                    az: s.az,
                    node: TsTypeElement::TsMethodSignature(s.node),
                    out: match s.out {
                        Ok(v) => Ok(TypeElement::Method(v)),
                        Err(e) => Err(e),
                    },
                }
            },
            TsTypeElement::TsIndexSignature(x) => {
                let s = self.validate_index_signature(x);
                Step {
                    az: s.az,
                    node: TsTypeElement::TsIndexSignature(s.node),
                    out: match s.out {
                        Ok(v) => Ok(TypeElement::Index(v)),
                        Err(e) => Err(e),
                    },
                }
            },
        }
    }

    /// Lowers members, first to last, up to the first failure.
    #[verifier::spinoff_prover]
    pub fn validate_type_elements(self, l: List<TsTypeElement>) -> (s: Step<
        List<TsTypeElement>,
        List<TypeElement>,
    >)
        ensures
            s == lower_elements(self, l),
            s.az.continues(self),
            s.out matches Err(e) ==> e is TooManyTypeParams,
            s.node.len() == l.len(),
            s.out matches Ok(v) ==> v.len() == l.len(),
            s.az.scope.next_slot <= self.scope.next_slot + w_elements(l),
            self.scope.next_slot + w_elements(l) < u64::MAX ==> s.out is Ok,
        decreases w_elements(l),
    {
        proof {
            reveal(w_elements);
            reveal(w_element);
            reveal(lower_elements);
            reveal(lower_element);
        }
        match l {
            List::Nil => Step { az: self, node: List::Nil, out: Ok(List::Nil) },
            List::Cons(head, tail) => {
                let h = self.validate_type_element(*head);
                match h.out {
                    Err(e) => Step {
                        az: h.az,
                        node: List::Cons(Box::new(h.node), tail),
                        out: Err(e),
                    },
                    Ok(v) => {
                        let t = h.az.validate_type_elements(*tail);
                        Step {
                            az: t.az,
                            node: List::Cons(Box::new(h.node), Box::new(t.node)),
                            out: match t.out {
                                Ok(vs) => Ok(List::Cons(Box::new(v), Box::new(vs))),
                                Err(e) => Err(e),
                            },
                        }
                    },
                }
            },
        }
    }

    /// Lowers a type literal.
    #[verifier::spinoff_prover]
    pub fn validate_type_lit(self, t: TsTypeLit) -> (s: Step<TsTypeLit, TypeLit>)
        ensures
            s == lower_type_lit(self, t),
            s.az.continues(self),
            s.out matches Err(e) ==> e is TooManyTypeParams,
            s.out matches Ok(v) ==> v.members.len() == t.members.len(),
            s.az.scope.next_slot <= self.scope.next_slot + w_type_lit(t),
            self.scope.next_slot + w_type_lit(t) < u64::MAX ==> s.out is Ok,
        decreases w_type_lit(t),
    {
        proof {
            reveal(w_type_lit);
            reveal(w_elements);
            reveal(lower_type_lit);
            reveal(lower_elements);
        }
        let span = t.span;
        let s = self.validate_type_elements(t.members);
        Step {
            az: s.az,
            node: TsTypeLit { span, members: s.node },
            out: match s.out {
                Ok(v) => Ok(TypeLit { span, members: v }),
                Err(e) => Err(e),
            },
        }
    }

    /// Lowers a function type: its type parameters; then every parameter
    /// without an annotation is given an implicit one; then the parameters are
    /// lowered; then the return type.
    #[verifier::spinoff_prover]
    pub fn validate_fn_type(self, t: TsFnType) -> (s: Step<TsFnType, Function>)
        ensures
            s == lower_fn_type(self, t),
            s.az.continues(self),
            s.out matches Err(e) ==> e is TooManyTypeParams,
            s.az.scope.next_slot <= self.scope.next_slot + w_fn_type(t),
            self.scope.next_slot + w_fn_type(t) < u64::MAX ==> s.out is Ok,
        decreases w_fn_type(t),
    {
        proof {
            reveal(w_fn_type);
            reveal(w_ann);
            reveal(w_fn_params);
            reveal(w_opt_decl);
            reveal(lower_fn_type);
            reveal(lower_ann);
            reveal(lower_fn_params);
            reveal(lower_opt_decl);
        }
        let TsFnType { span, params, type_params, type_ann } = t;
        let tp = self.validate_opt_type_param_decl(type_params);
        match tp.out {
            Err(e) => Step {
                az: tp.az,
                node: TsFnType { span, params, type_params: tp.node, type_ann },
                out: Err(e),
            },
            Ok(type_params) => {
                proof {
                    defaulted_params_weight(tp.az.marks.implicit_type_mark, params);
                }
                let mut params = params;
                default_any_params(tp.az.marks.implicit_type_mark, &mut params);
                let ps = tp.az.validate_fn_params(params);
                match ps.out {
                    Err(e) => Step {
                        az: ps.az,
                        node: TsFnType { span, params: ps.node, type_params: tp.node, type_ann },
                        out: Err(e),
                    },
                    Ok(params) => {
                        let r = ps.az.validate_type_ann(type_ann);
                        Step {
                            az: r.az,
                            node: TsFnType {
                                span,
                                params: ps.node,
                                type_params: tp.node,
                                type_ann: r.node,
                            },
                            out: match r.out {
                                Ok(ret) => Ok(
                                    Function { span, type_params, params, ret_ty: Box::new(ret) },
                                ),
                                Err(e) => Err(e),
                            },
                        }
                    },
                }
            },
        }
    }

    /// Lowers a constructor type, as a function type.
    #[verifier::spinoff_prover]
    pub fn validate_constructor_type(self, t: TsConstructorType) -> (s: Step<
        TsConstructorType,
        Constructor,
    >)
        ensures
            s == lower_ctor_type(self, t),
            s.az.continues(self),
            s.out matches Err(e) ==> e is TooManyTypeParams,
            s.az.scope.next_slot <= self.scope.next_slot + w_ctor_type(t),
            self.scope.next_slot + w_ctor_type(t) < u64::MAX ==> s.out is Ok,
        decreases w_ctor_type(t),
    {
        proof {
            reveal(w_ctor_type);
            reveal(w_ann);
            reveal(w_fn_params);
            reveal(w_opt_decl);
            reveal(lower_ctor_type);
            reveal(lower_ann);
            reveal(lower_fn_params);
            reveal(lower_opt_decl);
        }
        let TsConstructorType { span, params, type_params, type_ann } = t;
        let tp = self.validate_opt_type_param_decl(type_params);
        match tp.out {
            Err(e) => Step {
                az: tp.az,
                node: TsConstructorType { span, params, type_params: tp.node, type_ann },
                out: Err(e),
            },
            Ok(type_params) => {
                proof {
                    defaulted_params_weight(tp.az.marks.implicit_type_mark, params);
                }
                let mut params = params;
                default_any_params(tp.az.marks.implicit_type_mark, &mut params);
                let ps = tp.az.validate_fn_params(params);
                match ps.out {
                    Err(e) => Step {
                        az: ps.az,
                        node: TsConstructorType {
                            span,
                            params: ps.node,
                            type_params: tp.node,
                            type_ann,
                        },
                        out: Err(e),
                    },
                    Ok(params) => {
                        let r = ps.az.validate_type_ann(type_ann);
                        Step {
                            az: r.az,
                            node: TsConstructorType {
                                span,
                                params: ps.node,
                                type_params: tp.node,
                                type_ann: r.node,
                            },
                            out: match r.out {
                                Ok(ret) => Ok(
                                    Constructor {
                                        span,
                                        type_params,
                                        params,
                                        type_ann: Box::new(ret),
                                    },
                                ),
                                Err(e) => Err(e),
                            },
                        }
                    },
                }
            },
        }
    }

    /// Lowers a type reference: its arguments first, then the name is
    /// resolved in the scopes as they then are.
    #[verifier::spinoff_prover]
    pub fn validate_type_ref(self, t: TsTypeRef) -> (s: Step<TsTypeRef, Type>)
        ensures
            s == lower_type_ref(self, t),
            s.az.continues(self),
            s.out matches Err(e) ==> e is TooManyTypeParams,
            s.az.scope.next_slot <= self.scope.next_slot + w_type_ref(t),
            self.scope.next_slot + w_type_ref(t) < u64::MAX ==> s.out is Ok,
        decreases w_type_ref(t),
    {
        proof {
            reveal(w_type_ref);
            reveal(w_opt_inst);
            reveal(lower_type_ref);
            reveal(lower_opt_inst);
        }
        let TsTypeRef { span, name, type_params } = t;
        let s = self.validate_opt_type_param_instantiation(type_params);
        let out = match s.out {
            Ok(args) => Ok(s.az.resolve_type_ref(span, &name, args)),
            Err(e) => Err(e),
        };
        Step { az: s.az, node: TsTypeRef { span, name, type_params: s.node }, out }
    }

    /// Lowers a type predicate.
    #[verifier::spinoff_prover]
    pub fn validate_type_predicate(self, t: TsTypePredicate) -> (s: Step<
        TsTypePredicate,
        Predicate,
    >)
        ensures
            s == lower_predicate(self, t),
            s.az.continues(self),
            s.out matches Err(e) ==> e is TooManyTypeParams,
            s.az.scope.next_slot <= self.scope.next_slot + w_predicate(t),
            self.scope.next_slot + w_predicate(t) < u64::MAX ==> s.out is Ok,
        decreases w_predicate(t),
    {
        proof {
            reveal(w_predicate);
            reveal(w_opt_ann);
            reveal(lower_predicate);
            reveal(lower_opt_ann);
        }
        let TsTypePredicate { span, asserts, param_name, type_ann } = t;
        let s = self.validate_opt_type_ann(type_ann);
        let lowered_name = param_name.clone();
        Step {
            az: s.az,
            node: TsTypePredicate { span, asserts, param_name, type_ann: s.node },
            out: match s.out {
                Ok(ty) => Ok(Predicate { span, param_name: lowered_name, asserts, ty }),
                Err(e) => Err(e),
            },
        }
    }

    /// Lowers an import type.
    #[verifier::spinoff_prover]
    pub fn validate_import_type(self, t: TsImportType) -> (s: Step<TsImportType, ImportType>)
        ensures
            s == lower_import(self, t),
            s.az.continues(self),
            s.out matches Err(e) ==> e is TooManyTypeParams,
            s.az.scope.next_slot <= self.scope.next_slot + w_import(t),
            self.scope.next_slot + w_import(t) < u64::MAX ==> s.out is Ok,
        decreases w_import(t),
    {
        proof {
            reveal(w_import);
            reveal(w_opt_inst);
            reveal(lower_import);
            reveal(lower_opt_inst);
        }
        let TsImportType { span, arg, qualifier, type_args } = t;
        let s = self.validate_opt_type_param_instantiation(type_args);
        let lowered_arg = arg.clone();
        let lowered_qualifier = match &qualifier {
            Some(q) => Some(q.clone()),
            None => None,
        };
        Step {
            az: s.az,
            node: TsImportType { span, arg, qualifier, type_args: s.node },
            out: match s.out {
                Ok(type_params) => Ok(
                    ImportType {
                        span,
                        arg: lowered_arg,
                        qualifier: lowered_qualifier,
                        type_params,
                    },
                ),
                Err(e) => Err(e),
            },
        }
    }

    /// Lowers what a type query asks the type of.
    #[verifier::spinoff_prover]
    pub fn validate_type_query_expr(self, t: TsTypeQueryExpr) -> (s: Step<
        TsTypeQueryExpr,
        QueryExpr,
    >)
        ensures
            s == lower_query_expr(self, t),
            s.az.continues(self),
            s.out matches Err(e) ==> e is TooManyTypeParams,
            s.az.scope.next_slot <= self.scope.next_slot + w_query_expr(t),
            self.scope.next_slot + w_query_expr(t) < u64::MAX ==> s.out is Ok,
        decreases w_query_expr(t),
    {
        proof {
            reveal(w_query_expr);
            reveal(w_import);
            reveal(lower_query_expr);
            reveal(lower_import);
        }
        match t {
            TsTypeQueryExpr::TsEntityName(n) => {
                let lowered = n.clone();
                Step {
                    az: self,
                    node: TsTypeQueryExpr::TsEntityName(n),
                    out: Ok(QueryExpr::TsEntityName(lowered)),
                }
            },
            TsTypeQueryExpr::Import(i) => {
                let s = self.validate_import_type(i);
                Step {
                    az: s.az,
                    node: TsTypeQueryExpr::Import(s.node),
                    out: match s.out {
                        Ok(v) => Ok(QueryExpr::Import(v)),
                        Err(e) => Err(e),
                    },
                }
            },
        }
    }

    /// Lowers a type query.
    #[verifier::spinoff_prover]
    pub fn validate_type_query(self, t: TsTypeQuery) -> (s: Step<TsTypeQuery, QueryType>)
        ensures
            s == lower_query(self, t),
            s.az.continues(self),
            s.out matches Err(e) ==> e is TooManyTypeParams,
            s.az.scope.next_slot <= self.scope.next_slot + w_query(t),
            self.scope.next_slot + w_query(t) < u64::MAX ==> s.out is Ok,
        decreases w_query(t),
    {
        proof {
            reveal(w_query);
            reveal(w_query_expr);
            reveal(lower_query);
            reveal(lower_query_expr);
        }
        let span = t.span;
        let s = self.validate_type_query_expr(t.expr_name);
        Step {
            az: s.az,
            node: TsTypeQuery { span, expr_name: s.node },
            out: match s.out {
                Ok(v) => Ok(QueryType { span, expr: v }),
                Err(e) => Err(e),
            },
        }
    }

    /// Lowers an array type.
    #[verifier::spinoff_prover]
    pub fn validate_array_type(self, t: TsArrayType) -> (s: Step<TsArrayType, Array>)
        ensures
            s == lower_array(self, t),
            s.az.continues(self),
            s.out matches Err(e) ==> e is TooManyTypeParams,
            s.az.scope.next_slot <= self.scope.next_slot + w_array(t),
            self.scope.next_slot + w_array(t) < u64::MAX ==> s.out is Ok,
        decreases w_array(t),
    {
        proof {
            reveal(w_array);
            reveal(w_type);
            reveal(lower_array);
            reveal(lower_type);
        }
        let span = t.span;
        let s = self.validate(*t.elem_type);
        Step {
            az: s.az,
            node: TsArrayType { span, elem_type: Box::new(s.node) },
            out: match s.out {
                Ok(v) => Ok(Array { span, elem_type: Box::new(v) }),
                Err(e) => Err(e),
            },
        }
    }

    /// Lowers one element of a tuple type.
    #[verifier::spinoff_prover]
    pub fn validate_tuple_element(self, t: TsTupleElement) -> (s: Step<
        TsTupleElement,
        TupleElement,
    >)
        ensures
            s == lower_tuple_elem(self, t),
            s.az.continues(self),
            s.out matches Err(e) ==> e is TooManyTypeParams,
            s.az.scope.next_slot <= self.scope.next_slot + w_tuple_elem(t),
            self.scope.next_slot + w_tuple_elem(t) < u64::MAX ==> s.out is Ok,
        decreases w_tuple_elem(t),
    {
        proof {
            reveal(w_tuple_elem);
            reveal(w_type);
            reveal(lower_tuple_elem);
            reveal(lower_type);
        }
        let TsTupleElement { span, label, ty } = t;
        let s = self.validate(ty);
        let lowered_label = match &label {
            Some(l) => Some(l.clone()),
            None => None,
        };
        Step {
            az: s.az,
            node: TsTupleElement { span, label, ty: s.node },
            out: match s.out {
                Ok(ty) => Ok(TupleElement { span, label: lowered_label, ty }),
                Err(e) => Err(e),
            },
        }
    }

    /// Lowers the elements of a tuple type, first to last, up to the first
    /// failure.
    #[verifier::spinoff_prover]
    pub fn validate_tuple_elements(self, l: List<TsTupleElement>) -> (s: Step<
        List<TsTupleElement>,
        List<TupleElement>,
    >)
        ensures
            s == lower_tuple_elems(self, l),
            s.az.continues(self),
            s.out matches Err(e) ==> e is TooManyTypeParams,
            s.az.scope.next_slot <= self.scope.next_slot + w_tuple_elems(l),
            self.scope.next_slot + w_tuple_elems(l) < u64::MAX ==> s.out is Ok,
        decreases w_tuple_elems(l),
    {
        proof {
            reveal(w_tuple_elems);
            reveal(w_tuple_elem);
            reveal(lower_tuple_elems);
            reveal(lower_tuple_elem);
        }
        match l {
            List::Nil => Step { az: self, node: List::Nil, out: Ok(List::Nil) },
            List::Cons(head, tail) => {
                let h = self.validate_tuple_element(*head);
                match h.out {
                    Err(e) => Step {
                        az: h.az,
                        node: List::Cons(Box::new(h.node), tail),
                        out: Err(e),
                    },
                    Ok(v) => {
                        let t = h.az.validate_tuple_elements(*tail);
                        Step {
                            az: t.az,
                            node: List::Cons(Box::new(h.node), Box::new(t.node)),
                            out: match t.out {
                                Ok(vs) => Ok(List::Cons(Box::new(v), Box::new(vs))),
                                Err(e) => Err(e),
                            },
                        }
                    },
                }
            },
        }
    }

    /// Lowers a tuple type.
    #[verifier::spinoff_prover]
    pub fn validate_tuple_type(self, t: TsTupleType) -> (s: Step<TsTupleType, Tuple>)
        ensures
            s == lower_tuple(self, t),
            s.az.continues(self),
            s.out matches Err(e) ==> e is TooManyTypeParams,
            s.az.scope.next_slot <= self.scope.next_slot + w_tuple(t),
            self.scope.next_slot + w_tuple(t) < u64::MAX ==> s.out is Ok,
        decreases w_tuple(t),
    {
        proof {
            reveal(w_tuple);
            reveal(w_tuple_elems);
            reveal(lower_tuple);
            reveal(lower_tuple_elems);
        }
        let span = t.span;
        let s = self.validate_tuple_elements(t.elem_types);
        Step {
            az: s.az,
            node: TsTupleType { span, elem_types: s.node },
            out: match s.out {
                Ok(v) => Ok(Tuple { span, elems: v }),
                Err(e) => Err(e),
            },
        }
    }

    /// Lowers an optional type.
    #[verifier::spinoff_prover]
    pub fn validate_optional_type(self, t: TsOptionalType) -> (s: Step<
        TsOptionalType,
        OptionalType,
    >)
        ensures
            s == lower_optional(self, t),
            s.az.continues(self),
            s.out matches Err(e) ==> e is TooManyTypeParams,
            s.az.scope.next_slot <= self.scope.next_slot + w_optional(t),
            self.scope.next_slot + w_optional(t) < u64::MAX ==> s.out is Ok,
        decreases w_optional(t),
    {
        proof {
            reveal(w_optional);
            reveal(w_type);
            reveal(lower_optional);
            reveal(lower_type);
        }
        let span = t.span;
        let s = self.validate(*t.type_ann);
        Step {
            az: s.az,
            node: TsOptionalType { span, type_ann: Box::new(s.node) },
            out: match s.out {
                Ok(v) => Ok(OptionalType { span, ty: Box::new(v) }),
                Err(e) => Err(e),
            },
        }
    }

    /// Lowers a rest type.
    #[verifier::spinoff_prover]
    pub fn validate_rest_type(self, t: TsRestType) -> (s: Step<TsRestType, RestType>)
        ensures
            s == lower_rest(self, t),
            s.az.continues(self),
            s.out matches Err(e) ==> e is TooManyTypeParams,
            s.az.scope.next_slot <= self.scope.next_slot + w_rest(t),
            self.scope.next_slot + w_rest(t) < u64::MAX ==> s.out is Ok,
        decreases w_rest(t),
    {
        proof {
            reveal(w_rest);
            reveal(w_type);
            reveal(lower_rest);
            reveal(lower_type);
        }
        let span = t.span;
        let s = self.validate(*t.type_ann);
        Step {
            az: s.az,
            node: TsRestType { span, type_ann: Box::new(s.node) },
            out: match s.out {
                Ok(v) => Ok(RestType { span, ty: Box::new(v) }),
                Err(e) => Err(e),
            },
        }
    }

    /// Lowers a union type.
    #[verifier::spinoff_prover]
    pub fn validate_union_type(self, t: TsUnionType) -> (s: Step<TsUnionType, Union>)
        ensures
            s == lower_union(self, t),
            s.az.continues(self),
            s.out matches Err(e) ==> e is TooManyTypeParams,
            s.az.scope.next_slot <= self.scope.next_slot + w_union(t),
            self.scope.next_slot + w_union(t) < u64::MAX ==> s.out is Ok,
        decreases w_union(t),
    {
        proof {
            reveal(w_union);
            reveal(w_types);
            reveal(lower_union);
            reveal(lower_types);
        }
        let span = t.span;
        let s = self.validate_types(t.types);
        Step {
            az: s.az,
            node: TsUnionType { span, types: s.node },
            out: match s.out {
                Ok(v) => Ok(Union { span, types: v }),
                Err(e) => Err(e),
            },
        }
    }

    /// Lowers an intersection type.
    #[verifier::spinoff_prover]
    pub fn validate_intersection_type(self, t: TsIntersectionType) -> (s: Step<
        TsIntersectionType,
        Intersection,
    >)
        ensures
            s == lower_intersection(self, t),
            s.az.continues(self),
            s.out matches Err(e) ==> e is TooManyTypeParams,
            s.az.scope.next_slot <= self.scope.next_slot + w_intersection(t),
            self.scope.next_slot + w_intersection(t) < u64::MAX ==> s.out is Ok,
        decreases w_intersection(t),
    {
        proof {
            reveal(w_intersection);
            reveal(w_types);
            reveal(lower_intersection);
            reveal(lower_types);
        }
        let span = t.span;
        let s = self.validate_types(t.types);
        Step {
            az: s.az,
            node: TsIntersectionType { span, types: s.node },
            out: match s.out {
                Ok(v) => Ok(Intersection { span, types: v }),
                Err(e) => Err(e),
            },
        }
    }

    /// Lowers a conditional type: the checked type, the type it is held
    /// against, the type for yes and the type for no, in this order.
    #[verifier::spinoff_prover]
    pub fn validate_conditional_type(self, t: TsConditionalType) -> (s: Step<
        TsConditionalType,
        Conditional,
    >)
        ensures
            s == lower_conditional(self, t),
            s.az.continues(self),
            s.out matches Err(e) ==> e is TooManyTypeParams,
            s.az.scope.next_slot <= self.scope.next_slot + w_conditional(t),
            self.scope.next_slot + w_conditional(t) < u64::MAX ==> s.out is Ok,
        decreases w_conditional(t),
    {
        proof {
            reveal(w_conditional);
            reveal(w_type);
            reveal(lower_conditional);
            reveal(lower_type);
        }
        let TsConditionalType { span, check_type, extends_type, true_type, false_type } = t;
        let c = self.validate(*check_type);
        match c.out {
            Err(e) => Step {
                az: c.az,
                node: TsConditionalType {
                    span,
                    check_type: Box::new(c.node),
                    extends_type,
                    true_type,
                    false_type,
                },
                out: Err(e),
            },
            Ok(check) => {
                let x = c.az.validate(*extends_type);
                match x.out {
                    Err(e) => Step {
                        az: x.az,
                        node: TsConditionalType {
                            span,
                            check_type: Box::new(c.node),
                            extends_type: Box::new(x.node),
                            true_type,
                            false_type,
                        },
                        out: Err(e),
                    },
                    Ok(extends) => {
                        let y = x.az.validate(*true_type);
                        match y.out {
                            Err(e) => Step {
                                az: y.az,
                                node: TsConditionalType {
                                    span,
                                    check_type: Box::new(c.node),
                                    extends_type: Box::new(x.node),
                                    true_type: Box::new(y.node),
                                    false_type,
                                },
                                out: Err(e),
                            },
                            Ok(yes) => {
                                let n = y.az.validate(*false_type);
                                Step {
                                    az: n.az,
                                    node: TsConditionalType {
                                        span,
                                        check_type: Box::new(c.node),
                                        extends_type: Box::new(x.node),
                                        true_type: Box::new(y.node),
                                        false_type: Box::new(n.node),
                                    },
                                    out: match n.out {
                                        Ok(no) => Ok(
                                            Conditional {
                                                span,
                                                check_type: Box::new(check),
                                                extends_type: Box::new(extends),
                                                true_type: Box::new(yes),
                                                false_type: Box::new(no),
                                            },
                                        ),
                                        Err(e) => Err(e),
                                    },
                                }
                            },
                        }
                    },
                }
            },
        }
    }

    /// Lowers an inference position.
    #[verifier::spinoff_prover]
    pub fn validate_infer_type(self, t: TsInferType) -> (s: Step<TsInferType, InferType>)
        ensures
            s == lower_infer(self, t),
            s.az.continues(self),
            s.out matches Err(e) ==> e is TooManyTypeParams,
            s.az.scope.next_slot <= self.scope.next_slot + w_infer(t),
            self.scope.next_slot + w_infer(t) < u64::MAX ==> s.out is Ok,
        decreases w_infer(t),
    {
        proof {
            reveal(w_infer);
            reveal(w_tparam);
            reveal(lower_infer);
            reveal(lower_tparam);
        }
        let span = t.span;
        let s = self.validate_type_param(t.type_param);
        Step {
            az: s.az,
            node: TsInferType { span, type_param: s.node },
            out: match s.out {
                Ok(v) => Ok(InferType { span, type_param: v }),
                Err(e) => Err(e),
            },
        }
    }

    /// Lowers a type in parentheses: the type between them.
    #[verifier::spinoff_prover]
    pub fn validate_parenthesized_type(self, t: TsParenthesizedType) -> (s: Step<
        TsParenthesizedType,
        Type,
    >)
        ensures
            s == lower_paren(self, t),
            s.az.continues(self),
            s.out matches Err(e) ==> e is TooManyTypeParams,
            s.az.scope.next_slot <= self.scope.next_slot + w_paren(t),
            self.scope.next_slot + w_paren(t) < u64::MAX ==> s.out is Ok,
        decreases w_paren(t),
    {
        proof {
            reveal(w_paren);
            reveal(w_type);
            reveal(lower_paren);
            reveal(lower_type);
        }
        let span = t.span;
        let s = self.validate(*t.type_ann);
        Step {
            az: s.az,
            node: TsParenthesizedType { span, type_ann: Box::new(s.node) },
            out: s.out,
        }
    }

    /// Lowers a type operator.
    #[verifier::spinoff_prover]
    pub fn validate_type_operator(self, t: TsTypeOperator) -> (s: Step<TsTypeOperator, Operator>)
        ensures
            s == lower_operator(self, t),
            s.az.continues(self),
            s.out matches Err(e) ==> e is TooManyTypeParams,
            s.az.scope.next_slot <= self.scope.next_slot + w_operator(t),
            self.scope.next_slot + w_operator(t) < u64::MAX ==> s.out is Ok,
        decreases w_operator(t),
    {
        proof {
            reveal(w_operator);
            reveal(w_type);
            reveal(lower_operator);
            reveal(lower_type);
        }
        let span = t.span;
        let op = t.op;
        let s = self.validate(*t.type_ann);
        Step {
            az: s.az,
            node: TsTypeOperator { span, op, type_ann: Box::new(s.node) },
            out: match s.out {
                Ok(v) => Ok(Operator { span, op, ty: Box::new(v) }),
                Err(e) => Err(e),
            },
        }
    }

    /// Lowers an indexed access type.
    #[verifier::spinoff_prover]
    pub fn validate_indexed_access_type(self, t: TsIndexedAccessType) -> (s: Step<
        TsIndexedAccessType,
        IndexedAccessType,
    >)
        ensures
            s == lower_indexed(self, t),
            s.az.continues(self),
            s.out matches Err(e) ==> e is TooManyTypeParams,
            s.az.scope.next_slot <= self.scope.next_slot + w_indexed(t),
            self.scope.next_slot + w_indexed(t) < u64::MAX ==> s.out is Ok,
        decreases w_indexed(t),
    {
        proof {
            reveal(w_indexed);
            reveal(w_type);
            reveal(lower_indexed);
            reveal(lower_type);
        }
        let TsIndexedAccessType { span, readonly, obj_type, index_type } = t;
        let o = self.validate(*obj_type);
        match o.out {
            Err(e) => Step {
                az: o.az,
                node: TsIndexedAccessType {
                    span,
                    readonly,
                    obj_type: Box::new(o.node),
                    index_type,
                },
                out: Err(e),
            },
            Ok(obj) => {
                let i = o.az.validate(*index_type);
                Step {
                    az: i.az,
                    node: TsIndexedAccessType {
                        span,
                        readonly,
                        obj_type: Box::new(o.node),
                        index_type: Box::new(i.node),
                    },
                    out: match i.out {
                        Ok(index) => Ok(
                            IndexedAccessType {
                                span,
                                readonly,
                                obj_type: Box::new(obj),
                                index_type: Box::new(index),
                            },
                        ),
                        Err(e) => Err(e),
                    },
                }
            },
        }
    }

    /// Lowers a mapped type.
    #[verifier::spinoff_prover]
    pub fn validate_mapped_type(self, t: TsMappedType) -> (s: Step<TsMappedType, Mapped>)
        ensures
            s == lower_mapped(self, t),
            s.az.continues(self),
            s.out matches Err(e) ==> e is TooManyTypeParams,
            s.az.scope.next_slot <= self.scope.next_slot + w_mapped(t),
            self.scope.next_slot + w_mapped(t) < u64::MAX ==> s.out is Ok,
        decreases w_mapped(t),
    {
        proof {
            reveal(w_mapped);
            reveal(w_opt_type);
            reveal(w_tparam);
            reveal(lower_mapped);
            reveal(lower_opt_type);
            reveal(lower_tparam);
        }
        let TsMappedType { span, readonly, type_param, optional, type_ann } = t;
        let p = self.validate_type_param(type_param);
        match p.out {
            Err(e) => Step {
                az: p.az,
                node: TsMappedType { span, readonly, type_param: p.node, optional, type_ann },
                out: Err(e),
            },
            Ok(type_param) => {
                let s = p.az.validate_opt_type(type_ann);
                Step {
                    az: s.az,
                    node: TsMappedType {
                        span,
                        readonly,
                        type_param: p.node,
                        optional,
                        type_ann: s.node,
                    },
                    out: match s.out {
                        Ok(ty) => Ok(Mapped { span, readonly, optional, type_param, ty }),
                        Err(e) => Err(e),
                    },
                }
            },
        }
    }

    /// Lowers a type.
    ///
    /// Each kind of syntax gives its semantic counterpart. A type in
    /// parentheses gives the type between them, a type reference what its
    /// name resolves to, and a literal type is marked as not to be widened.
    #[verifier::spinoff_prover]
    pub fn validate(self, t: TsType) -> (s: Step<TsType, Type>)
        ensures
            s == lower_type(self, t),
            s.az.continues(self),
            s.out matches Err(e) ==> e is TooManyTypeParams,
            s.az.scope.next_slot <= self.scope.next_slot + w_type(t),
            self.scope.next_slot + w_type(t) < u64::MAX ==> s.out is Ok,
        decreases w_type(t),
    {
        proof {
            reveal(w_array);
            reveal(w_conditional);
            reveal(w_ctor_type);
            reveal(w_fn_type);
            reveal(w_import);
            reveal(w_indexed);
            reveal(w_infer);
            reveal(w_intersection);
            reveal(w_mapped);
            reveal(w_operator);
            reveal(w_optional);
            reveal(w_paren);
            reveal(w_predicate);
            reveal(w_query);
            reveal(w_rest);
            reveal(w_tuple);
            reveal(w_type);
            reveal(w_type_lit);
            reveal(w_type_ref);
            reveal(w_union);
            reveal(lower_array);
            reveal(lower_conditional);
            reveal(lower_ctor_type);
            reveal(lower_fn_type);
            reveal(lower_import);
            reveal(lower_indexed);
            reveal(lower_infer);
            reveal(lower_intersection);
            reveal(lower_mapped);
            reveal(lower_operator);
            reveal(lower_optional);
            reveal(lower_paren);
            reveal(lower_predicate);
            reveal(lower_query);
            reveal(lower_rest);
            reveal(lower_tuple);
            reveal(lower_type);
            reveal(lower_type_lit);
            reveal(lower_type_ref);
            reveal(lower_union);
        }
        match t {
            TsType::TsThisType(x) => {
                Step { az: self, node: TsType::TsThisType(x), out: Ok(Type::This(x)) }
            },
            TsType::TsLitType(x) => {
                let mut ty = Type::Lit(x.clone());
                self.prevent_generalize(&mut ty);
                Step { az: self, node: TsType::TsLitType(x), out: Ok(ty) }
            },
            TsType::TsKeywordType(x) => {
                Step { az: self, node: TsType::TsKeywordType(x), out: Ok(Type::Keyword(x)) }
            },
            TsType::TsTupleType(x) => {
                let s = self.validate_tuple_type(x);
                Step {
                    az: s.az,
                    node: TsType::TsTupleType(s.node),
                    out: match s.out {
                        Ok(v) => Ok(Type::Tuple(v)),
                        Err(e) => Err(e),
                    },
                }
            },
            TsType::TsUnionOrIntersectionType(TsUnionOrIntersectionType::TsUnionType(x)) => {
                let s = self.validate_union_type(x);
                Step {
                    az: s.az,
                    node: TsType::TsUnionOrIntersectionType(
                        TsUnionOrIntersectionType::TsUnionType(s.node),
                    ),
                    out: match s.out {
                        Ok(v) => Ok(Type::Union(v)),
                        Err(e) => Err(e),
                    },
                }
            },
            TsType::TsUnionOrIntersectionType(TsUnionOrIntersectionType::TsIntersectionType(x)) => {
                let s = self.validate_intersection_type(x);
                Step {
                    az: s.az,
                    node: TsType::TsUnionOrIntersectionType(
                        TsUnionOrIntersectionType::TsIntersectionType(s.node),
                    ),
                    out: match s.out {
                        Ok(v) => Ok(Type::Intersection(v)),
                        Err(e) => Err(e),
                    },
                }
            },
            TsType::TsArrayType(x) => {
                let s = self.validate_array_type(x);
                Step {
                    az: s.az,
                    node: TsType::TsArrayType(s.node),
                    out: match s.out {
                        Ok(v) => Ok(Type::Array(v)),
                        Err(e) => Err(e),
                    },
                }
            },
            TsType::TsFnOrConstructorType(TsFnOrConstructorType::TsFnType(x)) => {
                let s = self.validate_fn_type(x);
                Step {
                    az: s.az,
                    node: TsType::TsFnOrConstructorType(TsFnOrConstructorType::TsFnType(s.node)),
                    out: match s.out {
                        Ok(v) => Ok(Type::Function(v)),
                        Err(e) => Err(e),
                    },
                }
            },
            TsType::TsFnOrConstructorType(TsFnOrConstructorType::TsConstructorType(x)) => {
                let s = self.validate_constructor_type(x);
                Step {
                    az: s.az,
                    node: TsType::TsFnOrConstructorType(
                        TsFnOrConstructorType::TsConstructorType(s.node),
                    ),
                    out: match s.out {
                        Ok(v) => Ok(Type::Constructor(v)),
                        Err(e) => Err(e),
                    },
                }
            },
            TsType::TsTypeLit(x) => {
                let s = self.validate_type_lit(x);
                Step {
                    az: s.az,
                    node: TsType::TsTypeLit(s.node),
                    out: match s.out {
                        Ok(v) => Ok(Type::TypeLit(v)),
                        Err(e) => Err(e),
                    },
                }
            },
            TsType::TsConditionalType(x) => {
                let s = self.validate_conditional_type(x);
                Step {
                    az: s.az,
                    node: TsType::TsConditionalType(s.node),
                    out: match s.out {
                        Ok(v) => Ok(Type::Conditional(v)),
                        Err(e) => Err(e),
                    },
                }
            },
            TsType::TsMappedType(x) => {
                let s = self.validate_mapped_type(x);
                Step {
                    az: s.az,
                    node: TsType::TsMappedType(s.node),
                    out: match s.out {
                        Ok(v) => Ok(Type::Mapped(v)),
                        Err(e) => Err(e),
                    },
                }
            },
            TsType::TsTypeOperator(x) => {
                let s = self.validate_type_operator(x);
                Step {
                    az: s.az,
                    node: TsType::TsTypeOperator(s.node),
                    out: match s.out {
                        Ok(v) => Ok(Type::Operator(v)),
                        Err(e) => Err(e),
                    },
                }
            },
            TsType::TsParenthesizedType(x) => {
                let s = self.validate_parenthesized_type(x);
                Step {
                    az: s.az,
                    node: TsType::TsParenthesizedType(s.node),
                    out: s.out,
                }
            },
            TsType::TsTypeRef(x) => {
                let s = self.validate_type_ref(x);
                Step {
                    az: s.az,
                    node: TsType::TsTypeRef(s.node),
                    out: s.out,
                }
            },
            TsType::TsTypeQuery(x) => {
                let s = self.validate_type_query(x);
                Step {
                    az: s.az,
                    node: TsType::TsTypeQuery(s.node),
                    out: match s.out {
                        Ok(v) => Ok(Type::Query(v)),
                        Err(e) => Err(e),
                    },
                }
            },
            TsType::TsOptionalType(x) => {
                let s = self.validate_optional_type(x);
                Step {
                    az: s.az,
                    node: TsType::TsOptionalType(s.node),
                    out: match s.out {
                        Ok(v) => Ok(Type::Optional(v)),
                        Err(e) => Err(e),
                    },
                }
            },
            TsType::TsRestType(x) => {
                let s = self.validate_rest_type(x);
                Step {
                    az: s.az,
                    node: TsType::TsRestType(s.node),
                    out: match s.out {
                        Ok(v) => Ok(Type::Rest(v)),
                        Err(e) => Err(e),
                    },
                }
            },
            TsType::TsInferType(x) => {
                let s = self.validate_infer_type(x);
                Step {
                    az: s.az,
                    node: TsType::TsInferType(s.node),
                    out: match s.out {
                        Ok(v) => Ok(Type::Infer(v)),
                        Err(e) => Err(e),
                    },
                }
            },
            TsType::TsIndexedAccessType(x) => {
                let s = self.validate_indexed_access_type(x);
                Step {
                    az: s.az,
                    node: TsType::TsIndexedAccessType(s.node),
                    out: match s.out {
                        Ok(v) => Ok(Type::IndexedAccessType(v)),
                        Err(e) => Err(e),
                    },
                }
            },
            TsType::TsTypePredicate(x) => {
                let s = self.validate_type_predicate(x);
                Step {
                    az: s.az,
                    node: TsType::TsTypePredicate(s.node),
                    out: match s.out {
                        Ok(v) => Ok(Type::Predicate(v)),
                        Err(e) => Err(e),
                    },
                }
            },
            TsType::TsImportType(x) => {
                let s = self.validate_import_type(x);
                Step {
                    az: s.az,
                    node: TsType::TsImportType(s.node),
                    out: match s.out {
                        Ok(v) => Ok(Type::Import(v)),
                        Err(e) => Err(e),
                    },
                }
            },
        }
    }

    /// Lowers one parent of an interface.
    #[verifier::spinoff_prover]
    pub fn validate_expr_with_type_args(self, t: TsExprWithTypeArgs) -> (s: Step<
        TsExprWithTypeArgs,
        TsExpr,
    >)
        ensures
            s == lower_extend(self, t),
            s.az.continues(self),
            s.out matches Err(e) ==> e is TooManyTypeParams,
            s.az.scope.next_slot <= self.scope.next_slot + w_opt_inst(t.type_args),
            self.scope.next_slot + w_opt_inst(t.type_args) < u64::MAX ==> s.out is Ok,
    {
        proof {
            reveal(lower_extend);
        }
        let TsExprWithTypeArgs { span, expr, type_args } = t;
        let s = self.validate_opt_type_param_instantiation(type_args);
        let lowered = expr.clone();
        Step {
            az: s.az,
            node: TsExprWithTypeArgs { span, expr, type_args: s.node },
            out: match s.out {
                Ok(type_args) => Ok(TsExpr { span, expr: lowered, type_args }),
                Err(e) => Err(e),
            },
        }
    }

    /// Lowers the parents of an interface, first to last, up to the first
    /// failure.
    #[verifier::spinoff_prover]
    pub fn validate_extends(self, l: List<TsExprWithTypeArgs>) -> (s: Step<
        List<TsExprWithTypeArgs>,
        List<TsExpr>,
    >)
        ensures
            s == lower_extends(self, l),
            s.az.continues(self),
            s.out matches Err(e) ==> e is TooManyTypeParams,
            s.az.scope.next_slot <= self.scope.next_slot + w_extends(l),
            self.scope.next_slot + w_extends(l) < u64::MAX ==> s.out is Ok,
        decreases l,
    {
        proof {
            reveal(lower_extends);
        }
        match l {
            List::Nil => Step { az: self, node: List::Nil, out: Ok(List::Nil) },
            List::Cons(head, tail) => {
                let h = self.validate_expr_with_type_args(*head);
                match h.out {
                    Err(e) => Step {
                        az: h.az,
                        node: List::Cons(Box::new(h.node), tail),
                        out: Err(e),
                    },
                    Ok(v) => {
                        let t = h.az.validate_extends(*tail);
                        Step {
                            az: t.az,
                            node: List::Cons(Box::new(h.node), Box::new(t.node)),
                            out: match t.out {
                                Ok(vs) => Ok(List::Cons(Box::new(v), Box::new(vs))),
                                Err(e) => Err(e),
                            },
                        }
                    },
                }
            },
        }
    }

    /// Lowers the body of an interface.
    #[verifier::spinoff_prover]
    pub fn validate_interface_body(self, t: TsInterfaceBody) -> (s: Step<
        TsInterfaceBody,
        List<TypeElement>,
    >)
        ensures
            s == lower_body(self, t),
            s.az.continues(self),
            s.out matches Err(e) ==> e is TooManyTypeParams,
            s.node.body.len() == t.body.len(),
            s.out matches Ok(v) ==> v.len() == t.body.len(),
            s.az.scope.next_slot <= self.scope.next_slot + w_elements(t.body),
            self.scope.next_slot + w_elements(t.body) < u64::MAX ==> s.out is Ok,
    {
        proof {
            reveal(lower_body);
        }
        let span = t.span;
        let s = self.validate_type_elements(t.body);
        Step { az: s.az, node: TsInterfaceBody { span, body: s.node }, out: s.out }
    }

    /// Lowers a type alias declaration and registers the alias.
    ///
    /// In a scope of its own the type parameters and then the aliased type
    /// are lowered; the type is marked as not to be unfolded unless an
    /// inference position occurs in it. The scope is closed however the step
    /// ends. The alias is then registered in the scope around the
    /// declaration. The step fails when the type parameters or the type
    /// cannot be lowered, or when that scope binds the name to a different
    /// type.
    #[verifier::spinoff_prover]
    pub fn validate_alias_decl(self, d: TsTypeAliasDecl) -> (s: Step<TsTypeAliasDecl, Alias>)
        ensures
            s == lower_alias(self, d),
            s.az.continues(self),
            s.out matches Err(e) ==> e is TooManyTypeParams || e is DuplicateName,
            s.az.scope.next_slot <= self.scope.next_slot + w_alias(d),
            self.scope.next_slot + w_alias(d) < u64::MAX && declared_as(
                self.scope.current.types,
                d.id.id(),
            ) is None ==> s.out is Ok,
            s.out matches Ok(alias) ==> declared_as(s.az.scope.current.types, d.id.id()) is Some
                && type_alike(
                declared_as(s.az.scope.current.types, d.id.id())->Some_0,
                Type::Alias(alias),
            ),
    {
        proof {
            reveal(lower_alias);
        }
        let TsTypeAliasDecl { span, id, type_params, type_ann } = d;
        let tp = self.enter(ScopeKind::Flow).validate_opt_type_param_decl(type_params);
        match tp.out {
            Err(e) => Step {
                az: tp.az.leave(),
                node: TsTypeAliasDecl { span, id, type_params: tp.node, type_ann },
                out: Err(e),
            },
            Ok(type_params) => {
                let s = tp.az.validate(*type_ann);
                match s.out {
                    Err(e) => Step {
                        az: s.az.leave(),
                        node: TsTypeAliasDecl {
                            span,
                            id,
                            type_params: tp.node,
                            type_ann: Box::new(s.node),
                        },
                        out: Err(e),
                    },
                    Ok(ty) => {
                        let mut ty = ty;
                        if !contains_infer_type(&ty) {
                            s.az.prevent_expansion(&mut ty);
                        }
                        let alias = Alias { span, type_params, ty: Box::new(ty) };
                        proof {
                            closing_continues(self.scope, ScopeKind::Flow, s.az.scope);
                            registering_declares(
                                s.az.scope.popped(),
                                id.id(),
                                Type::Alias(alias),
                            );
                        }
                        let (az, registered) = s.az.leave().register_type(
                            id.to_id(),
                            Type::Alias(alias.clone()),
                        );
                        Step {
                            az,
                            node: TsTypeAliasDecl {
                                span,
                                id,
                                type_params: tp.node,
                                type_ann: Box::new(s.node),
                            },
                            out: match registered {
                                Ok(_) => Ok(alias),
                                Err(e) => Err(e),
                            },
                        }
                    },
                }
            },
        }
    }

    /// Begins the lowering of an interface declaration.
    ///
    /// Opens the interface's scope, lowers type parameters, parents and
    /// members in it, and registers the interface there, so that the caller
    /// can resolve the parents against a scope that knows the interface
    /// itself. A failure to register it is recorded, not returned. On
    /// success the scope stays open until [`Analyzer::close_interface`]; on
    /// failure it is closed here.
    pub fn open_interface(self, d: TsInterfaceDecl) -> (s: Step<TsInterfaceDecl, Interface>)
        ensures
            s == opened_interface(self, d),
            s.out matches Err(e) ==> e is TooManyTypeParams,
            s.az.scope.next_slot <= self.scope.next_slot + w_interface(d),
            self.scope.next_slot + w_interface(d) < u64::MAX ==> s.out is Ok,
            s.out is Ok ==> s.out->Ok_0.name == d.id.id(),
            s.out is Ok ==> s.az.continues(self.in_child(ScopeKind::Flow)),
            s.out is Ok ==> declared_as(s.az.scope.current.types, s.out->Ok_0.name) is Some,
            s.out matches Ok(ty) ==> type_alike(
                declared_as(s.az.scope.current.types, ty.name)->Some_0,
                Type::Interface(ty),
            ) || (s.az.errors@.len() > 0 && s.az.errors@.last() is DuplicateName),
            s.out is Err ==> s.az.continues(self),
    {
        proof {
            reveal(opened_interface);
        }
        let TsInterfaceDecl { span, id, type_params, extends, body } = d;
        let tp = self.enter(ScopeKind::Flow).validate_opt_type_param_decl(type_params);
        match tp.out {
            Err(e) => Step {
                az: tp.az.leave(),
                node: TsInterfaceDecl { span, id, type_params: tp.node, extends, body },
                out: Err(e),
            },
            Ok(type_params) => {
                let x = tp.az.validate_extends(extends);
                match x.out {
                    Err(e) => Step {
                        az: x.az.leave(),
                        node: TsInterfaceDecl {
                            span,
                            id,
                            type_params: tp.node,
                            extends: x.node,
                            body,
                        },
                        out: Err(e),
                    },
                    Ok(extends) => {
                        let b = x.az.validate_interface_body(body);
                        match b.out {
                            Err(e) => Step {
                                az: b.az.leave(),
                                node: TsInterfaceDecl {
                                    span,
                                    id,
                                    type_params: tp.node,
                                    extends: x.node,
                                    body: b.node,
                                },
                                out: Err(e),
                            },
                            Ok(members) => {
                                let ty = Interface {
                                    span: span.apply_mark(b.az.marks.no_expand_mark),
                                    name: id.to_id(),
                                    type_params,
                                    extends,
                                    body: members,
                                };
                                proof {
                                    registering_declares(
                                        b.az.scope,
                                        ty.name,
                                        Type::Interface(ty),
                                    );
                                }
                                let (az, registered) = b.az.register_type(
                                    ty.name.clone(),
                                    Type::Interface(ty.clone()),
                                );
                                Step {
                                    az: match registered {
                                        Ok(_) => az,
                                        Err(e) => az.record(e),
                                    },
                                    node: TsInterfaceDecl {
                                        span,
                                        id,
                                        type_params: tp.node,
                                        extends: x.node,
                                        body: b.node,
                                    },
                                    out: Ok(ty),
                                }
                            },
                        }
                    },
                }
            },
        }
    }

    /// Ends the lowering of an interface declaration: closes the
    /// interface's scope and registers the interface in the scope around it.
    /// Fails exactly when that scope binds the name to a different type.
    pub fn close_interface(self, ty: Interface) -> (r: Outcome<Interface>)
        ensures
            r == closed_interface(self, ty),
            r.out matches Err(e) ==> e is DuplicateName,
            r.out matches Ok(registered) ==> registered == ty,
            r.az.scope.next_slot == self.scope.next_slot,
            declared_as(self.scope.popped().current.types, ty.name) is None ==> r.out is Ok,
            r.out is Ok ==> declared_as(r.az.scope.current.types, ty.name) is Some && type_alike(
                declared_as(r.az.scope.current.types, ty.name)->Some_0,
                Type::Interface(ty),
            ),
            r.az.continues(self.out_of_child()),
    {
        proof {
            reveal(closed_interface);
            registering_declares(self.scope.popped(), ty.name, Type::Interface(ty));
        }
        let (az, registered) = self.leave().register_type(
            ty.name.clone(),
            Type::Interface(ty.clone()),
        );
        Outcome {
            az,
            out: match registered {
                Ok(_) => Ok(ty),
                Err(e) => Err(e),
            },
        }
    }

    /// Lowers an interface declaration from beginning to end, for a caller
    /// that has no parents to resolve in between.
    #[verifier::spinoff_prover]
    pub fn validate_interface_decl(self, d: TsInterfaceDecl) -> (s: Step<
        TsInterfaceDecl,
        Interface,
    >)
        ensures
            s == lower_interface(self, d),
            s.az.continues(self),
            s.out matches Err(e) ==> e is TooManyTypeParams || e is DuplicateName,
            s.az.scope.next_slot <= self.scope.next_slot + w_interface(d),
            self.scope.next_slot + w_interface(d) < u64::MAX && declared_as(
                self.scope.current.types,
                d.id.id(),
            ) is None ==> s.out is Ok,
            s.out matches Ok(ty) ==> declared_as(s.az.scope.current.types, d.id.id()) is Some
                && type_alike(
                declared_as(s.az.scope.current.types, d.id.id())->Some_0,
                Type::Interface(ty),
            ),
    {
        proof {
            reveal(lower_interface);
        }
        let o = self.open_interface(d);
        match o.out {
            Err(e) => Step { az: o.az, node: o.node, out: Err(e) },
            Ok(ty) => {
                proof {
                    closing_continues(self.scope, ScopeKind::Flow, o.az.scope);
                }
                let c = o.az.close_interface(ty);
                Step { az: c.az, node: o.node, out: c.out }
            },
        }
    }
}

/// An identifier without a name, to stand where a declaration was taken out:
/// the empty symbol at the span of no source text, in no context, not
/// optional.
fn no_ident() -> (i: Ident)
    ensures
        i.span == dummy_sp(),
        i.ctxt == 0,
        i.sym@ == Seq::<char>::empty(),
        !i.optional,
{
    Ident { span: Span::dummy(), ctxt: 0, sym: String::new(), optional: false }
}

/// A type to stand where a type was taken out: `this` at the span of no
/// source text.
fn no_type() -> (t: TsType)
    ensures
        t == TsType::TsThisType(TsThisType { span: dummy_sp() }),
{
    TsType::TsThisType(TsThisType { span: Span::dummy() })
}

impl Analyzer {
    /// Takes the state out of `self` to hand it to a step.
    fn take(&mut self) -> (az: Analyzer)
        ensures
            az == *old(self),
    {
        let mut az = Analyzer::new(self.marks, self.is_builtin, List::Nil);
        core::mem::swap(self, &mut az);
        az
    }

    /// Lowers a type in place: the state and the syntax are left as the
    /// step leaves them.
    pub fn validate_in_place(&mut self, ty: &mut TsType) -> (r: Result<Type, Error>)
        ensures
            lower_type(*old(self), *old(ty)) == (Step {
                az: *final(self),
                node: *final(ty),
                out: r,
            }),
            final(self).continues(*old(self)),
    {
        let mut node = no_type();
        core::mem::swap(ty, &mut node);
        let s = self.take().validate(node);
        *self = s.az;
        *ty = s.node;
        s.out
    }

    /// Lowers a type parameter declaration in place.
    pub fn validate_type_param_decl_in_place(&mut self, d: &mut TsTypeParamDecl) -> (r: Result<
        TypeParamDecl,
        Error,
    >)
        ensures
            lower_decl(*old(self), *old(d)) == (Step {
                az: *final(self),
                node: *final(d),
                out: r,
            }),
            final(self).continues(*old(self)),
    {
        let mut node = TsTypeParamDecl { span: Span::dummy(), params: List::Nil };
        core::mem::swap(d, &mut node);
        let s = self.take().validate_type_param_decl(node);
        *self = s.az;
        *d = s.node;
        s.out
    }

    /// Lowers a type alias declaration in place and registers the alias.
    pub fn validate_alias_decl_in_place(&mut self, d: &mut TsTypeAliasDecl) -> (r: Result<
        Alias,
        Error,
    >)
        ensures
            lower_alias(*old(self), *old(d)) == (Step {
                az: *final(self),
                node: *final(d),
                out: r,
            }),
            final(self).continues(*old(self)),
    {
        let mut node = TsTypeAliasDecl {
            span: Span::dummy(),
            id: no_ident(),
            type_params: None,
            type_ann: Box::new(no_type()),
        };
        core::mem::swap(d, &mut node);
        let s = self.take().validate_alias_decl(node);
        *self = s.az;
        *d = s.node;
        s.out
    }

    /// Lowers an interface declaration in place and registers the
    /// interface.
    pub fn validate_interface_decl_in_place(&mut self, d: &mut TsInterfaceDecl) -> (r: Result<
        Interface,
        Error,
    >)
        ensures
            lower_interface(*old(self), *old(d)) == (Step {
                az: *final(self),
                node: *final(d),
                out: r,
            }),
            final(self).continues(*old(self)),
    {
        let mut node = TsInterfaceDecl {
            span: Span::dummy(),
            id: no_ident(),
            type_params: None,
            extends: List::Nil,
            body: TsInterfaceBody { span: Span::dummy(), body: List::Nil },
        };
        core::mem::swap(d, &mut node);
        let s = self.take().validate_interface_decl(node);
        *self = s.az;
        *d = s.node;
        s.out
    }
}

} // verus!
