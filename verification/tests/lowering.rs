use ts_lowering::analyzer::{Analyzer, KeyFinding, Marks};
use ts_lowering::ast::{
    BindingIdent, TsArrayType, TsCallSignatureDecl, TsConditionalType, TsFnOrConstructorType,
    TsFnParam, TsFnType, TsInferType, TsInterfaceBody, TsInterfaceDecl, TsKeywordType,
    TsKeywordTypeKind, TsLit, TsLitType, TsMethodSignature, TsParenthesizedType,
    TsPropertySignature, TsTupleElement, TsTupleType, TsType, TsTypeAliasDecl, TsTypeAnn,
    TsTypeElement, TsTypeParam, TsTypeParamDecl, TsTypeParamInstantiation, TsTypeRef,
    TsUnionOrIntersectionType, TsUnionType,
};
use ts_lowering::errors::Error;
use ts_lowering::expr::{Expr, OpaqueExpr, Str, TsEntityName};
use ts_lowering::ident::{Id, Ident};
use ts_lowering::list::List;
use ts_lowering::span::{Mark, Span};
use ts_lowering::ty::{
    Alias, Array, FnParam, Function, Interface, ParamPat, Placeholder, PropertySignature, Ref,
    Tuple, TupleElement, Type, TypeElement, TypeParam, TypeParamDecl, TypeParamInstantiation,
    Union,
};

const IMPLICIT: Mark = Mark(1);
const NO_EXPAND: Mark = Mark(2);
const NO_WIDEN: Mark = Mark(4);

fn marks() -> Marks {
    Marks {
        implicit_type_mark: IMPLICIT,
        no_expand_mark: NO_EXPAND,
        prevent_generalization_mark: NO_WIDEN,
    }
}

fn analyzer() -> Analyzer {
    Analyzer::new(marks(), false, List::Nil)
}

fn sp(lo: u32, hi: u32) -> Span {
    Span { lo, hi, ctxt: 0 }
}

fn ident(name: &str, lo: u32) -> Ident {
    Ident {
        span: sp(lo, lo + name.len() as u32),
        ctxt: 0,
        sym: name.to_string(),
        optional: false,
    }
}

fn id(name: &str) -> Id {
    Id { sym: name.to_string(), ctxt: 0 }
}

fn kw(kind: TsKeywordTypeKind, lo: u32) -> TsType {
    TsType::TsKeywordType(TsKeywordType { span: sp(lo, lo + 1), kind })
}

fn kw_ty(kind: TsKeywordTypeKind, lo: u32) -> Type {
    Type::Keyword(TsKeywordType { span: sp(lo, lo + 1), kind })
}

fn type_ref(name: &str, lo: u32, args: Option<Vec<TsType>>) -> TsType {
    TsType::TsTypeRef(TsTypeRef {
        span: sp(lo, lo + 10),
        name: TsEntityName::Ident(ident(name, lo)),
        type_params: args.map(|a| TsTypeParamInstantiation {
            span: sp(lo + 1, lo + 9),
            params: List::from_vec(a),
        }),
    })
}

fn unresolved(name: &str, lo: u32, args: Option<Vec<Type>>) -> Type {
    Type::Ref(Ref {
        span: sp(lo, lo + 10),
        name: TsEntityName::Ident(ident(name, lo)),
        type_args: args.map(|a| TypeParamInstantiation {
            span: sp(lo + 1, lo + 9),
            params: List::from_vec(a),
        }),
    })
}

fn tparam(name: &str, lo: u32, constraint: Option<TsType>) -> TsTypeParam {
    TsTypeParam {
        span: sp(lo, lo + 1),
        name: ident(name, lo),
        constraint: constraint.map(Box::new),
        default: None,
    }
}

fn decl(params: Vec<TsTypeParam>) -> TsTypeParamDecl {
    TsTypeParamDecl { span: sp(90, 99), params: List::from_vec(params) }
}

fn placeholder(name: &str, lo: u32, slot: u64) -> Type {
    Type::Param(Placeholder { span: sp(lo, lo + 1), name: id(name), slot })
}

fn ann(ty: TsType, lo: u32) -> TsTypeAnn {
    TsTypeAnn { span: sp(lo, lo + 2), type_ann: Box::new(ty) }
}

fn property(name: &str, lo: u32, ty: Option<TsType>) -> TsPropertySignature {
    TsPropertySignature {
        span: sp(lo, lo + 20),
        readonly: false,
        key: Box::new(Expr::Ident(ident(name, lo))),
        computed: false,
        optional: false,
        init: None,
        params: List::Nil,
        type_ann: ty.map(|t| ann(t, lo + 5)),
        type_params: None,
    }
}

fn lowered_property(name: &str, lo: u32, ty: Type) -> TypeElement {
    TypeElement::Property(PropertySignature {
        span: sp(lo, lo + 20),
        readonly: false,
        key: Box::new(Expr::Ident(ident(name, lo))),
        computed: false,
        optional: false,
        params: List::Nil,
        type_ann: Some(Box::new(ty)),
        type_params: None,
    })
}

#[test]
fn keyword_lowers_to_itself() {
    let s = analyzer().validate(kw(TsKeywordTypeKind::TsStringKeyword, 3));
    assert_eq!(s.out, Ok(kw_ty(TsKeywordTypeKind::TsStringKeyword, 3)));
    assert_eq!(s.node, kw(TsKeywordTypeKind::TsStringKeyword, 3));
    assert_eq!(s.az, analyzer());
}

#[test]
fn literal_type_is_marked_as_not_to_be_widened() {
    let lit = TsLit::Str(Str { span: sp(1, 4), value: "a".to_string() });
    let s = analyzer().validate(TsType::TsLitType(TsLitType { span: sp(1, 4), lit }));
    let expected = TsLitType {
        span: Span { lo: 1, hi: 4, ctxt: 4 },
        lit: TsLit::Str(Str { span: sp(1, 4), value: "a".to_string() }),
    };
    assert!(expected.span.has_mark(NO_WIDEN));
    assert!(!expected.span.has_mark(NO_EXPAND));
    assert_eq!(s.out, Ok(Type::Lit(expected)));
}

#[test]
fn parentheses_are_transparent() {
    let inner = kw(TsKeywordTypeKind::TsNumberKeyword, 2);
    let s = analyzer().validate(TsType::TsParenthesizedType(TsParenthesizedType {
        span: sp(1, 4),
        type_ann: Box::new(inner),
    }));
    assert_eq!(s.out, Ok(kw_ty(TsKeywordTypeKind::TsNumberKeyword, 2)));
}

#[test]
fn union_and_tuple_keep_their_order() {
    let u = TsType::TsUnionOrIntersectionType(TsUnionOrIntersectionType::TsUnionType(
        TsUnionType {
            span: sp(0, 9),
            types: List::from_vec(vec![
                kw(TsKeywordTypeKind::TsStringKeyword, 0),
                kw(TsKeywordTypeKind::TsNumberKeyword, 5),
            ]),
        },
    ));
    let s = analyzer().validate(u);
    assert_eq!(
        s.out,
        Ok(Type::Union(Union {
            span: sp(0, 9),
            types: List::from_vec(vec![
                kw_ty(TsKeywordTypeKind::TsStringKeyword, 0),
                kw_ty(TsKeywordTypeKind::TsNumberKeyword, 5),
            ]),
        }))
    );
}

#[test]
fn array_with_one_argument_is_an_array_type() {
    let s = analyzer()
        .validate(type_ref("Array", 0, Some(vec![kw(TsKeywordTypeKind::TsStringKeyword, 6)])));
    assert_eq!(
        s.out,
        Ok(Type::Array(Array {
            span: sp(0, 10),
            elem_type: Box::new(kw_ty(TsKeywordTypeKind::TsStringKeyword, 6)),
        }))
    );
}

#[test]
fn array_with_two_arguments_is_an_ordinary_reference() {
    let args = vec![
        kw(TsKeywordTypeKind::TsStringKeyword, 6),
        kw(TsKeywordTypeKind::TsNumberKeyword, 8),
    ];
    let s = analyzer().validate(type_ref("Array", 0, Some(args)));
    assert_eq!(
        s.out,
        Ok(unresolved(
            "Array",
            0,
            Some(vec![
                kw_ty(TsKeywordTypeKind::TsStringKeyword, 6),
                kw_ty(TsKeywordTypeKind::TsNumberKeyword, 8),
            ])
        ))
    );
}

#[test]
fn unknown_name_is_deferred_not_rejected() {
    let s = analyzer().validate(type_ref("Foo", 0, None));
    assert_eq!(s.out, Ok(unresolved("Foo", 0, None)));
    assert_eq!(s.az.errors, List::Nil);
}

#[test]
fn self_referential_constraint_sees_its_own_placeholder() {
    // <T extends Op<T>>
    let constraint = type_ref("Op", 10, Some(vec![type_ref("T", 13, None)]));
    let s = analyzer().validate_type_param_decl(decl(vec![tparam("T", 5, Some(constraint))]));
    let t = placeholder("T", 5, 0);
    let expected = TypeParam {
        span: sp(5, 6),
        name: id("T"),
        constraint: Some(Box::new(unresolved("Op", 10, Some(vec![t])))),
        default: None,
    };
    assert_eq!(
        s.out,
        Ok(TypeParamDecl { span: sp(90, 99), params: List::from_vec(vec![expected]) })
    );
    // A later use resolves to the same placeholder, whose slot now holds the
    // parameter with its constraint.
    let later = s.az.validate(type_ref("T", 40, None));
    assert_eq!(later.out, Ok(placeholder("T", 5, 0)));
    let held = later.az.scope.param(0).unwrap();
    assert_eq!(held.name, id("T"));
    assert!(held.constraint.is_some());
}

#[test]
fn parameters_may_refer_to_later_ones() {
    // <T extends U, U>
    let s = analyzer().validate_type_param_decl(decl(vec![
        tparam("T", 1, Some(type_ref("U", 10, None))),
        tparam("U", 20, None),
    ]));
    let params = s.out.unwrap().params.into_vec();
    assert_eq!(params[0].constraint, Some(Box::new(placeholder("U", 20, 1))));
    assert_eq!(params[1].constraint, None);
}

#[test]
fn built_in_declarations_are_not_preregistered() {
    // <T extends U, U> in the built-in library: U is not known yet when the
    // constraint of T is lowered.
    let s = Analyzer::new(marks(), true, List::Nil).validate_type_param_decl(decl(vec![
        tparam("T", 1, Some(type_ref("U", 10, None))),
        tparam("U", 20, None),
    ]));
    let params = s.out.unwrap().params.into_vec();
    assert_eq!(params[0].constraint, Some(Box::new(unresolved("U", 10, None))));
}

fn pair_alias() -> TsTypeAliasDecl {
    // type Pair<A, B> = [A, B];
    TsTypeAliasDecl {
        span: sp(0, 30),
        id: ident("Pair", 5),
        type_params: Some(decl(vec![tparam("A", 10, None), tparam("B", 13, None)])),
        type_ann: Box::new(TsType::TsTupleType(TsTupleType {
            span: sp(18, 24),
            elem_types: List::from_vec(vec![
                TsTupleElement { span: sp(19, 20), label: None, ty: type_ref("A", 19, None) },
                TsTupleElement { span: sp(22, 23), label: None, ty: type_ref("B", 22, None) },
            ]),
        })),
    }
}

fn lowered_pair() -> Alias {
    Alias {
        span: sp(0, 30),
        type_params: Some(TypeParamDecl {
            span: sp(90, 99),
            params: List::from_vec(vec![
                TypeParam { span: sp(10, 11), name: id("A"), constraint: None, default: None },
                TypeParam { span: sp(13, 14), name: id("B"), constraint: None, default: None },
            ]),
        }),
        ty: Box::new(Type::Tuple(Tuple {
            span: Span { lo: 18, hi: 24, ctxt: 2 },
            elems: List::from_vec(vec![
                TupleElement { span: sp(19, 20), label: None, ty: placeholder("A", 10, 0) },
                TupleElement { span: sp(22, 23), label: None, ty: placeholder("B", 13, 1) },
            ]),
        })),
    }
}

#[test]
fn alias_is_lowered_marked_and_registered() {
    let s = analyzer().validate_alias_decl(pair_alias());
    assert_eq!(s.out, Ok(lowered_pair()));
    assert!(lowered_pair().ty.span().has_mark(NO_EXPAND));
    // The alias is known in the scope around the declaration; its type
    // parameters are not.
    assert_eq!(
        s.az.scope.find_type(&id("Pair")),
        List::from_vec(vec![Type::Alias(lowered_pair())])
    );
    assert_eq!(s.az.scope.find_type(&id("A")), List::Nil);
    assert_eq!(s.az.scope.parents, List::Nil);

    // A reference to the alias stays a reference with its arguments.
    let use_site = type_ref(
        "Pair",
        40,
        Some(vec![
            kw(TsKeywordTypeKind::TsStringKeyword, 45),
            kw(TsKeywordTypeKind::TsNumberKeyword, 47),
        ]),
    );
    let r = s.az.validate(use_site);
    assert_eq!(
        r.out,
        Ok(unresolved(
            "Pair",
            40,
            Some(vec![
                kw_ty(TsKeywordTypeKind::TsStringKeyword, 45),
                kw_ty(TsKeywordTypeKind::TsNumberKeyword, 47),
            ])
        ))
    );
}

#[test]
fn alias_with_an_inference_position_is_not_marked() {
    // type Elem<T> = T extends (infer U)[] ? U : never
    let infer =
        TsType::TsInferType(TsInferType { span: sp(20, 27), type_param: tparam("U", 26, None) });
    let d = TsTypeAliasDecl {
        span: sp(0, 50),
        id: ident("Elem", 5),
        type_params: Some(decl(vec![tparam("T", 10, None)])),
        type_ann: Box::new(TsType::TsConditionalType(TsConditionalType {
            span: sp(15, 49),
            check_type: Box::new(type_ref("T", 15, None)),
            extends_type: Box::new(TsType::TsArrayType(TsArrayType {
                span: sp(20, 30),
                elem_type: Box::new(infer),
            })),
            true_type: Box::new(type_ref("U", 35, None)),
            false_type: Box::new(kw(TsKeywordTypeKind::TsNeverKeyword, 40)),
        })),
    };
    let s = analyzer().validate_alias_decl(d);
    let alias = s.out.unwrap();
    assert!(!alias.ty.span().has_mark(NO_EXPAND));
    assert_eq!(alias.ty.span(), sp(15, 49));
    match *alias.ty {
        Type::Conditional(c) => {
            assert_eq!(*c.check_type, placeholder("T", 10, 0));
            // `infer U` registered U, so the branch resolves to it.
            assert_eq!(*c.true_type, placeholder("U", 26, 1));
        },
        other => panic!("unexpected type {:?}", other),
    }
}

#[test]
fn registering_a_different_alias_under_the_same_name_fails() {
    let first = analyzer().validate_alias_decl(pair_alias());
    assert!(first.out.is_ok());
    let other = TsTypeAliasDecl {
        span: sp(100, 130),
        id: ident("Pair", 105),
        type_params: None,
        type_ann: Box::new(kw(TsKeywordTypeKind::TsStringKeyword, 110)),
    };
    let second = first.az.validate_alias_decl(other);
    assert_eq!(
        second.out,
        Err(Error::DuplicateName { name: id("Pair"), span: sp(100, 130) })
    );
    // Nothing was overwritten, and the scope of the failed alias is closed.
    assert_eq!(
        second.az.scope.find_type(&id("Pair")),
        List::from_vec(vec![Type::Alias(lowered_pair())])
    );
    assert_eq!(second.az.scope.parents, List::Nil);
}

#[test]
fn registering_the_same_alias_again_succeeds() {
    // type Name = string; twice, at different places
    let alias = |lo: u32| TsTypeAliasDecl {
        span: sp(lo, lo + 20),
        id: ident("Name", lo + 5),
        type_params: None,
        type_ann: Box::new(kw(TsKeywordTypeKind::TsStringKeyword, lo + 12)),
    };
    let first = analyzer().validate_alias_decl(alias(0));
    assert!(first.out.is_ok());
    let second = first.az.validate_alias_decl(alias(100));
    assert!(second.out.is_ok());
    // The first registration stands; nothing was added.
    let found = second.az.scope.find_type(&id("Name")).into_vec();
    assert_eq!(found.len(), 1);
    assert_eq!(found[0].span(), sp(0, 20));
}

#[test]
fn lowering_a_generic_alias_again_makes_new_placeholders_and_clashes() {
    let first = analyzer().validate_alias_decl(pair_alias());
    let second = first.az.validate_alias_decl(pair_alias());
    assert_eq!(second.out, Err(Error::DuplicateName { name: id("Pair"), span: sp(0, 30) }));
}

fn node_interface() -> TsInterfaceDecl {
    // interface Node { next: Node }
    TsInterfaceDecl {
        span: sp(0, 40),
        id: ident("Node", 10),
        type_params: None,
        extends: List::Nil,
        body: TsInterfaceBody {
            span: sp(15, 40),
            body: List::from_vec(vec![TsTypeElement::TsPropertySignature(property(
                "next",
                17,
                Some(type_ref("Node", 23, None)),
            ))]),
        },
    }
}

fn lowered_node() -> Interface {
    Interface {
        span: Span { lo: 0, hi: 40, ctxt: 2 },
        name: id("Node"),
        type_params: None,
        extends: List::Nil,
        body: List::from_vec(vec![lowered_property("next", 17, unresolved("Node", 23, None))]),
    }
}

#[test]
fn interface_that_refers_to_itself_lowers() {
    let s = analyzer().validate_interface_decl(node_interface());
    assert_eq!(s.out, Ok(lowered_node()));
    assert_eq!(s.az.errors, List::Nil);
    assert_eq!(
        s.az.scope.find_type(&id("Node")),
        List::from_vec(vec![Type::Interface(lowered_node())])
    );
    assert_eq!(s.az.scope.parents, List::Nil);
}

#[test]
fn interface_is_known_in_its_own_scope_before_it_is_finished() {
    let opened = analyzer().open_interface(node_interface());
    assert_eq!(opened.out, Ok(lowered_node()));
    // The scope of the interface is still open and knows the interface.
    assert_ne!(opened.az.scope.parents, List::Nil);
    assert_eq!(
        opened.az.scope.find_type(&id("Node")),
        List::from_vec(vec![Type::Interface(lowered_node())])
    );
    let closed = opened.az.close_interface(lowered_node());
    assert_eq!(closed.out, Ok(lowered_node()));
    assert_eq!(closed.az.scope.parents, List::Nil);
    assert_eq!(
        closed.az.scope.find_type(&id("Node")),
        List::from_vec(vec![Type::Interface(lowered_node())])
    );
}

#[test]
fn method_type_parameter_shadows_only_inside_the_method() {
    // interface Box<T> { map<T>(x: T): T; value: T }
    let method = TsMethodSignature {
        span: sp(20, 40),
        readonly: false,
        key: Box::new(Expr::Ident(ident("map", 20))),
        computed: false,
        optional: false,
        params: List::from_vec(vec![TsFnParam::Ident(BindingIdent {
            id: ident("x", 27),
            type_ann: Some(ann(type_ref("T", 30, None), 28)),
        })]),
        type_ann: Some(ann(type_ref("T", 35, None), 33)),
        type_params: Some(decl(vec![tparam("T", 24, None)])),
    };
    let d = TsInterfaceDecl {
        span: sp(0, 60),
        id: ident("Box", 10),
        type_params: Some(decl(vec![tparam("T", 14, None)])),
        extends: List::Nil,
        body: TsInterfaceBody {
            span: sp(17, 60),
            body: List::from_vec(vec![
                TsTypeElement::TsMethodSignature(method),
                TsTypeElement::TsPropertySignature(property(
                    "value",
                    42,
                    Some(type_ref("T", 49, None)),
                )),
            ]),
        },
    };
    let s = analyzer().validate_interface_decl(d);
    let body = s.out.unwrap().body.into_vec();
    let outer = placeholder("T", 14, 0);
    let inner = placeholder("T", 24, 1);
    match &body[0] {
        TypeElement::Method(m) => {
            let params: Vec<&FnParam> = match &m.params {
                List::Cons(p, _) => vec![&**p],
                List::Nil => vec![],
            };
            assert_eq!(*params[0].ty, inner);
            assert_eq!(m.ret_ty, Some(Box::new(inner)));
        },
        other => panic!("unexpected member {:?}", other),
    }
    assert_eq!(body[1], lowered_property("value", 42, outer));
}

#[test]
fn untyped_parameter_of_a_function_type_defaults_to_any() {
    // (x) => number
    let f = TsFnType {
        span: sp(0, 20),
        params: List::from_vec(vec![TsFnParam::Ident(BindingIdent {
            id: ident("x", 1),
            type_ann: None,
        })]),
        type_params: None,
        type_ann: ann(kw(TsKeywordTypeKind::TsNumberKeyword, 10), 8),
    };
    let s = analyzer()
        .validate(TsType::TsFnOrConstructorType(TsFnOrConstructorType::TsFnType(f)));
    let implicit = Span { lo: 0, hi: 0, ctxt: 1 };
    assert_eq!(
        s.out,
        Ok(Type::Function(Function {
            span: sp(0, 20),
            type_params: None,
            params: List::from_vec(vec![FnParam {
                span: sp(1, 2),
                required: true,
                pat: ParamPat::Ident(ident("x", 1)),
                ty: Box::new(Type::Keyword(TsKeywordType {
                    span: implicit,
                    kind: TsKeywordTypeKind::TsAnyKeyword,
                })),
            }]),
            ret_ty: Box::new(kw_ty(TsKeywordTypeKind::TsNumberKeyword, 10)),
        }))
    );
    assert!(implicit.has_mark(IMPLICIT));
    // A missing annotation is no finding.
    assert_eq!(s.az.errors, List::Nil);
    // The syntax now carries the implicit annotation.
    match s.node {
        TsType::TsFnOrConstructorType(TsFnOrConstructorType::TsFnType(f)) => {
            match f.params {
                List::Cons(p, _) => match *p {
                    TsFnParam::Ident(b) => assert_eq!(
                        b.type_ann,
                        Some(TsTypeAnn {
                            span: implicit,
                            type_ann: Box::new(TsType::TsKeywordType(TsKeywordType {
                                span: implicit,
                                kind: TsKeywordTypeKind::TsAnyKeyword,
                            })),
                        })
                    ),
                    other => panic!("unexpected parameter {:?}", other),
                },
                List::Nil => panic!("no parameter"),
            }
        },
        other => panic!("unexpected syntax {:?}", other),
    }
}

#[test]
fn property_with_a_rejected_computed_key_is_kept_as_any() {
    // interface I { [k]; b: string } where the key checker rejects `k`
    let key = Expr::Opaque(OpaqueExpr { span: sp(12, 13), handle: 7 });
    let finding = Error::External { span: sp(12, 13), code: 1169 };
    let computed = TsPropertySignature {
        span: sp(11, 15),
        readonly: false,
        key: Box::new(key),
        computed: true,
        optional: false,
        init: None,
        params: List::Nil,
        type_ann: None,
        type_params: None,
    };
    let d = TsInterfaceDecl {
        span: sp(0, 40),
        id: ident("I", 10),
        type_params: None,
        extends: List::Nil,
        body: TsInterfaceBody {
            span: sp(11, 40),
            body: List::from_vec(vec![
                TsTypeElement::TsPropertySignature(computed),
                TsTypeElement::TsPropertySignature(property(
                    "b",
                    17,
                    Some(kw(TsKeywordTypeKind::TsStringKeyword, 25)),
                )),
            ]),
        },
    };
    let findings = List::from_vec(vec![KeyFinding {
        span: sp(12, 13),
        error: Error::External { span: sp(12, 13), code: 1169 },
    }]);
    let s = Analyzer::new(marks(), false, findings).validate_interface_decl(d);
    let body = s.out.unwrap().body.into_vec();
    assert_eq!(body.len(), 2);
    match &body[0] {
        TypeElement::Property(p) => {
            assert!(p.computed);
            assert_eq!(
                p.type_ann,
                Some(Box::new(Type::Keyword(TsKeywordType {
                    span: sp(11, 15),
                    kind: TsKeywordTypeKind::TsAnyKeyword,
                })))
            );
        },
        other => panic!("unexpected member {:?}", other),
    }
    assert_eq!(body[1], lowered_property("b", 17, kw_ty(TsKeywordTypeKind::TsStringKeyword, 25)));
    assert_eq!(s.az.errors, List::from_vec(vec![finding]));
    // The syntax of the property now carries the annotation `any`.
    match s.node.body.body {
        List::Cons(first, _) => match *first {
            TsTypeElement::TsPropertySignature(p) => assert_eq!(
                p.type_ann,
                Some(TsTypeAnn {
                    span: sp(11, 15),
                    type_ann: Box::new(TsType::TsKeywordType(TsKeywordType {
                        span: sp(11, 15),
                        kind: TsKeywordTypeKind::TsAnyKeyword,
                    })),
                })
            ),
            other => panic!("unexpected member {:?}", other),
        },
        List::Nil => panic!("no member"),
    }
}

#[test]
fn built_in_declarations_skip_the_key_check_of_properties() {
    let key = Expr::Opaque(OpaqueExpr { span: sp(12, 13), handle: 7 });
    let computed = TsPropertySignature {
        span: sp(11, 15),
        readonly: false,
        key: Box::new(key),
        computed: true,
        optional: false,
        init: None,
        params: List::Nil,
        type_ann: Some(ann(kw(TsKeywordTypeKind::TsStringKeyword, 14), 13)),
        type_params: None,
    };
    let findings = List::from_vec(vec![KeyFinding {
        span: sp(12, 13),
        error: Error::External { span: sp(12, 13), code: 1169 },
    }]);
    let s = Analyzer::new(marks(), true, findings).validate_property_signature(computed);
    assert!(s.out.is_ok());
    assert_eq!(s.az.errors, List::Nil);
}

#[test]
fn no_slot_left_is_an_error() {
    let mut az = analyzer();
    az.scope.next_slot = u64::MAX;
    let s = az.validate_type_param_decl(decl(vec![tparam("T", 5, None)]));
    assert_eq!(s.out, Err(Error::TooManyTypeParams { span: sp(5, 6) }));
}

#[test]
fn in_place_lowering_leaves_what_the_step_leaves() {
    // (x) => number, lowered in place: the parameter gets its annotation.
    let f = || {
        TsType::TsFnOrConstructorType(TsFnOrConstructorType::TsFnType(TsFnType {
            span: sp(0, 20),
            params: List::from_vec(vec![TsFnParam::Ident(BindingIdent {
                id: ident("x", 1),
                type_ann: None,
            })]),
            type_params: None,
            type_ann: ann(kw(TsKeywordTypeKind::TsNumberKeyword, 10), 8),
        }))
    };
    let by_value = analyzer().validate(f());
    let mut az = analyzer();
    let mut ty = f();
    let out = az.validate_in_place(&mut ty);
    assert_eq!(out, by_value.out);
    assert_eq!(ty, by_value.node);
    assert_eq!(az, by_value.az);
    assert_ne!(ty, f());

    let mut az = analyzer();
    let mut d = pair_alias();
    assert_eq!(az.validate_alias_decl_in_place(&mut d), Ok(lowered_pair()));
    assert_eq!(az.scope.find_type(&id("Pair")), List::from_vec(vec![Type::Alias(lowered_pair())]));

    let mut az = analyzer();
    let mut d = node_interface();
    assert_eq!(az.validate_interface_decl_in_place(&mut d), Ok(lowered_node()));

    let mut az = analyzer();
    let mut d = decl(vec![tparam("T", 5, None)]);
    let lowered = az.validate_type_param_decl_in_place(&mut d).unwrap();
    assert_eq!(lowered.params.into_vec().len(), 1);
    assert_eq!(az.scope.find_type(&id("T")), List::from_vec(vec![placeholder("T", 5, 0)]));
}

fn generic_fn_type(lo: u32) -> TsType {
    // <T>() => void
    TsType::TsFnOrConstructorType(TsFnOrConstructorType::TsFnType(TsFnType {
        span: sp(lo, lo + 15),
        params: List::Nil,
        type_params: Some(decl(vec![tparam("T", lo + 1, None)])),
        type_ann: ann(kw(TsKeywordTypeKind::TsVoidKeyword, lo + 10), lo + 8),
    }))
}

#[test]
fn property_whose_annotation_fails_is_kept_as_any_and_the_failure_recorded() {
    let mut az = analyzer();
    az.scope.next_slot = u64::MAX;
    let s = az.validate_property_signature(property("p", 3, Some(generic_fn_type(10))));
    let any = Type::Keyword(TsKeywordType {
        span: sp(3, 23),
        kind: TsKeywordTypeKind::TsAnyKeyword,
    });
    assert_eq!(s.out, Ok(match lowered_property("p", 3, any) {
        TypeElement::Property(p) => p,
        other => panic!("unexpected member {:?}", other),
    }));
    assert_eq!(
        s.az.errors,
        List::from_vec(vec![Error::TooManyTypeParams { span: sp(11, 12) }])
    );
    assert_eq!(
        s.node.type_ann,
        Some(TsTypeAnn {
            span: sp(3, 23),
            type_ann: Box::new(TsType::TsKeywordType(TsKeywordType {
                span: sp(3, 23),
                kind: TsKeywordTypeKind::TsAnyKeyword,
            })),
        })
    );
}

#[test]
fn failure_in_a_call_signature_ends_the_step() {
    let mut az = analyzer();
    az.scope.next_slot = u64::MAX;
    let sig = TsCallSignatureDecl {
        span: sp(0, 30),
        params: List::Nil,
        type_ann: Some(ann(generic_fn_type(10), 8)),
        type_params: None,
    };
    let s = az.validate_call_signature(sig);
    assert_eq!(s.out, Err(Error::TooManyTypeParams { span: sp(11, 12) }));
    assert_eq!(s.az.errors, List::Nil);
}

#[test]
fn failure_inside_a_method_closes_its_scope() {
    let mut az = analyzer();
    az.scope.next_slot = u64::MAX;
    let method = TsMethodSignature {
        span: sp(20, 40),
        readonly: false,
        key: Box::new(Expr::Ident(ident("m", 20))),
        computed: false,
        optional: false,
        params: List::Nil,
        type_ann: None,
        type_params: Some(decl(vec![tparam("T", 24, None)])),
    };
    let before = analyzer().scope.current;
    let s = az.validate_method_signature(method);
    assert_eq!(s.out, Err(Error::TooManyTypeParams { span: sp(24, 25) }));
    assert_eq!(s.az.scope.parents, List::Nil);
    assert_eq!(s.az.scope.current, before);
}

#[test]
fn method_key_is_checked_in_the_built_in_library_too() {
    let key = Expr::Opaque(OpaqueExpr { span: sp(21, 22), handle: 1 });
    let method = TsMethodSignature {
        span: sp(20, 40),
        readonly: false,
        key: Box::new(key),
        computed: true,
        optional: false,
        params: List::Nil,
        type_ann: None,
        type_params: None,
    };
    let findings = List::from_vec(vec![KeyFinding {
        span: sp(21, 22),
        error: Error::External { span: sp(21, 22), code: 2464 },
    }]);
    let s = Analyzer::new(marks(), true, findings).validate_method_signature(method);
    assert!(s.out.is_ok());
    assert_eq!(
        s.az.errors,
        List::from_vec(vec![Error::External { span: sp(21, 22), code: 2464 }])
    );
}

#[test]
fn members_are_lowered_one_for_one_and_in_order() {
    // { a: string; b; c: number } with a property without annotation in the
    // middle: three members come out, in order, and the middle one is `any`.
    let lit = TsType::TsTypeLit(ts_lowering::ast::TsTypeLit {
        span: sp(0, 90),
        members: List::from_vec(vec![
            TsTypeElement::TsPropertySignature(property(
                "a",
                1,
                Some(kw(TsKeywordTypeKind::TsStringKeyword, 8)),
            )),
            TsTypeElement::TsPropertySignature(property("b", 30, None)),
            TsTypeElement::TsPropertySignature(property(
                "c",
                60,
                Some(kw(TsKeywordTypeKind::TsNumberKeyword, 68)),
            )),
        ]),
    });
    let s = analyzer().validate(lit);
    let members = match s.out {
        Ok(Type::TypeLit(l)) => l.members.into_vec(),
        other => panic!("unexpected result {:?}", other),
    };
    assert_eq!(members.len(), 3);
    assert_eq!(
        members[0],
        lowered_property("a", 1, kw_ty(TsKeywordTypeKind::TsStringKeyword, 8))
    );
    assert_eq!(
        members[1],
        lowered_property(
            "b",
            30,
            Type::Keyword(TsKeywordType {
                span: sp(30, 50),
                kind: TsKeywordTypeKind::TsAnyKeyword,
            })
        )
    );
    assert_eq!(
        members[2],
        lowered_property("c", 60, kw_ty(TsKeywordTypeKind::TsNumberKeyword, 68))
    );
    // A missing annotation is no finding.
    assert_eq!(s.az.errors, List::Nil);
}

#[test]
fn array_parameter_of_a_function_type_gets_a_marked_tuple() {
    let param = TsFnParam::Array(ts_lowering::ast::ArrayPat {
        span: sp(1, 7),
        elems: List::from_vec(vec![Some(ts_lowering::ast::Pat::Ident(BindingIdent {
            id: ident("a", 2),
            type_ann: None,
        }))]),
        optional: false,
        type_ann: None,
    });
    let f = TsFnType {
        span: sp(0, 20),
        params: List::from_vec(vec![param]),
        type_params: None,
        type_ann: ann(kw(TsKeywordTypeKind::TsNumberKeyword, 10), 8),
    };
    let s = analyzer()
        .validate(TsType::TsFnOrConstructorType(TsFnOrConstructorType::TsFnType(f)));
    assert!(s.out.is_ok());
    match s.node {
        TsType::TsFnOrConstructorType(TsFnOrConstructorType::TsFnType(f)) => match f.params {
            List::Cons(p, _) => match *p {
                TsFnParam::Array(a) => {
                    let written = a.type_ann.unwrap();
                    assert!(written.span.has_mark(IMPLICIT));
                    assert_eq!(written.span, Span { lo: 1, hi: 7, ctxt: 1 });
                },
                other => panic!("unexpected parameter {:?}", other),
            },
            List::Nil => panic!("no parameter"),
        },
        other => panic!("unexpected syntax {:?}", other),
    }
}
