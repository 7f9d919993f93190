use ts_lowering::ast::{
    ArrayPat, AssignPatProp, BindingIdent, Invalid, KeyValuePatProp, ObjectPat, ObjectPatProp, Pat,
    RestPat, TsFnParam, TsKeywordType, TsKeywordTypeKind, TsPropertySignature, TsTupleElement,
    TsTupleType, TsType, TsTypeAnn, TsTypeElement, TsTypeLit,
};
use ts_lowering::default_any::{
    default_any_array_pat, default_any_ident, default_any_object, default_any_param,
    default_any_params, default_any_pat,
};
use ts_lowering::expr::{Expr, PropName};
use ts_lowering::ident::Ident;
use ts_lowering::list::List;
use ts_lowering::span::{Mark, Span};

const MARK: Mark = Mark(0b100);

fn sp(lo: u32, hi: u32) -> Span {
    Span { lo, hi, ctxt: 0 }
}

fn dummy() -> Span {
    Span { lo: 0, hi: 0, ctxt: 0 }
}

fn marked_dummy() -> Span {
    Span { lo: 0, hi: 0, ctxt: 0b100 }
}

fn ident(name: &str, lo: u32) -> Ident {
    Ident { span: sp(lo, lo + 1), ctxt: 0, sym: name.to_string(), optional: false }
}

fn binding(name: &str, lo: u32) -> BindingIdent {
    BindingIdent { id: ident(name, lo), type_ann: None }
}

fn pat(name: &str, lo: u32) -> Pat {
    Pat::Ident(binding(name, lo))
}

fn any(span: Span) -> TsType {
    TsType::TsKeywordType(TsKeywordType { span, kind: TsKeywordTypeKind::TsAnyKeyword })
}

fn string_ann() -> TsTypeAnn {
    TsTypeAnn {
        span: sp(50, 56),
        type_ann: Box::new(TsType::TsKeywordType(TsKeywordType {
            span: sp(50, 56),
            kind: TsKeywordTypeKind::TsStringKeyword,
        })),
    }
}

fn array_pat(span: Span, elems: Vec<Option<Pat>>) -> ArrayPat {
    ArrayPat { span, elems: List::from_vec(elems), optional: false, type_ann: None }
}

fn tuple(elems: Vec<TsTupleElement>) -> TsType {
    TsType::TsTupleType(TsTupleType { span: dummy(), elem_types: List::from_vec(elems) })
}

fn elem(span: Span, ty: TsType) -> TsTupleElement {
    TsTupleElement { span, label: None, ty }
}

fn member(key: Expr, type_ann: Option<TsTypeAnn>) -> TsTypeElement {
    TsTypeElement::TsPropertySignature(TsPropertySignature {
        span: dummy(),
        readonly: false,
        key: Box::new(key),
        computed: false,
        optional: false,
        init: None,
        params: List::Nil,
        type_ann,
        type_params: None,
    })
}

#[test]
fn identifier_without_annotation_becomes_marked_any() {
    let mut i = binding("x", 3);
    default_any_ident(MARK, &mut i);
    assert_eq!(
        i.type_ann,
        Some(TsTypeAnn { span: marked_dummy(), type_ann: Box::new(any(marked_dummy())) })
    );
    assert!(i.type_ann.as_ref().unwrap().span.has_mark(MARK));
    assert_eq!(i.id, ident("x", 3));
}

#[test]
fn identifier_with_annotation_is_left_alone() {
    let mut i = BindingIdent { id: ident("x", 3), type_ann: Some(string_ann()) };
    default_any_ident(MARK, &mut i);
    assert_eq!(i, BindingIdent { id: ident("x", 3), type_ann: Some(string_ann()) });
}

#[test]
fn nested_array_pattern_gives_nested_tuple() {
    // [a, [b, c]]
    let inner = array_pat(sp(4, 10), vec![Some(pat("b", 5)), Some(pat("c", 8))]);
    let mut arr = array_pat(sp(0, 11), vec![Some(pat("a", 1)), Some(Pat::Array(inner))]);
    default_any_array_pat(MARK, &mut arr);

    let expected = TsTypeAnn {
        span: Span { lo: 0, hi: 11, ctxt: 0b100 },
        type_ann: Box::new(tuple(vec![
            elem(sp(1, 2), any(dummy())),
            elem(
                sp(4, 10),
                tuple(vec![elem(sp(5, 6), any(dummy())), elem(sp(8, 9), any(dummy()))]),
            ),
        ])),
    };
    assert_eq!(arr.type_ann, Some(expected));

    // The nested pattern has handed its type over and keeps none of its own.
    let elems = arr.elems.into_vec();
    assert_eq!(elems.len(), 2);
    assert_eq!(elems[0], Some(pat("a", 1)));
    match &elems[1] {
        Some(Pat::Array(inner)) => assert_eq!(inner.type_ann, None),
        other => panic!("unexpected element {:?}", other),
    }
}

#[test]
fn hole_in_array_pattern_is_any_at_no_position() {
    let mut arr = array_pat(sp(0, 6), vec![None, Some(pat("b", 3))]);
    default_any_array_pat(MARK, &mut arr);
    assert_eq!(
        arr.type_ann,
        Some(TsTypeAnn {
            span: Span { lo: 0, hi: 6, ctxt: 0b100 },
            type_ann: Box::new(tuple(vec![
                elem(dummy(), any(dummy())),
                elem(sp(3, 4), any(dummy())),
            ])),
        })
    );
}

#[test]
fn object_pattern_types_nested_patterns_only() {
    // { x: [p, q], y }
    let nested = array_pat(sp(5, 11), vec![Some(pat("p", 6)), Some(pat("q", 9))]);
    let mut obj = ObjectPat {
        span: sp(0, 16),
        props: List::from_vec(vec![
            ObjectPatProp::KeyValue(KeyValuePatProp {
                key: PropName::Ident(ident("x", 2)),
                value: Box::new(Pat::Array(nested)),
            }),
            ObjectPatProp::Assign(AssignPatProp {
                span: sp(13, 14),
                key: ident("y", 13),
                value: None,
            }),
        ]),
        optional: false,
        type_ann: None,
    };
    default_any_object(MARK, &mut obj);

    let x_type = TsTypeAnn {
        span: dummy(),
        type_ann: Box::new(tuple(vec![
            elem(sp(6, 7), any(dummy())),
            elem(sp(9, 10), any(dummy())),
        ])),
    };
    let expected = TsTypeAnn {
        span: marked_dummy(),
        type_ann: Box::new(TsType::TsTypeLit(TsTypeLit {
            span: dummy(),
            members: List::from_vec(vec![
                member(Expr::Ident(ident("x", 2)), Some(x_type)),
                member(Expr::Ident(ident("y", 13)), None),
            ]),
        })),
    };
    assert_eq!(obj.type_ann, Some(expected));
}

#[test]
fn object_pattern_skips_rest_and_leaves_plain_values_untyped() {
    // { a: b, ...rest }
    let mut obj = ObjectPat {
        span: sp(0, 20),
        props: List::from_vec(vec![
            ObjectPatProp::KeyValue(KeyValuePatProp {
                key: PropName::Ident(ident("a", 2)),
                value: Box::new(pat("b", 5)),
            }),
            ObjectPatProp::Rest(RestPat {
                span: sp(8, 15),
                arg: Box::new(pat("rest", 11)),
                type_ann: None,
            }),
        ]),
        optional: false,
        type_ann: None,
    };
    default_any_object(MARK, &mut obj);
    let lit = match obj.type_ann {
        Some(TsTypeAnn { type_ann, .. }) => *type_ann,
        None => panic!("no annotation"),
    };
    assert_eq!(
        lit,
        TsType::TsTypeLit(TsTypeLit {
            span: dummy(),
            members: List::from_vec(vec![member(Expr::Ident(ident("a", 2)), None)]),
        })
    );
    // The plain value pattern was not defaulted.
    let props = obj.props.into_vec();
    match &props[0] {
        ObjectPatProp::KeyValue(kv) => assert_eq!(*kv.value, pat("b", 5)),
        other => panic!("unexpected property {:?}", other),
    }
}

#[test]
fn value_pattern_with_a_type_hands_it_to_the_member() {
    // { a: b } where b carries an annotation of its own
    let mut obj = ObjectPat {
        span: sp(0, 20),
        props: List::from_vec(vec![ObjectPatProp::KeyValue(KeyValuePatProp {
            key: PropName::Ident(ident("a", 2)),
            value: Box::new(Pat::Ident(BindingIdent {
                id: ident("b", 5),
                type_ann: Some(string_ann()),
            })),
        })]),
        optional: false,
        type_ann: None,
    };
    default_any_object(MARK, &mut obj);
    let lit = match obj.type_ann {
        Some(TsTypeAnn { type_ann, .. }) => *type_ann,
        None => panic!("no annotation"),
    };
    let moved = TsTypeAnn { span: dummy(), type_ann: string_ann().type_ann };
    assert_eq!(
        lit,
        TsType::TsTypeLit(TsTypeLit {
            span: dummy(),
            members: List::from_vec(vec![member(Expr::Ident(ident("a", 2)), Some(moved))]),
        })
    );
    let props = obj.props.into_vec();
    match &props[0] {
        ObjectPatProp::KeyValue(kv) => assert_eq!(*kv.value, pat("b", 5)),
        other => panic!("unexpected property {:?}", other),
    }
}

#[test]
fn defaulting_twice_changes_nothing_the_second_time() {
    let inner = array_pat(sp(4, 10), vec![Some(pat("b", 5)), Some(pat("c", 8))]);
    let mut p = Pat::Array(array_pat(sp(0, 11), vec![Some(pat("a", 1)), Some(Pat::Array(inner))]));
    default_any_pat(MARK, &mut p);
    let once = format!("{:?}", p);
    default_any_pat(Mark(0b1000), &mut p);
    assert_eq!(format!("{:?}", p), once);

    let mut q = pat("x", 0);
    default_any_pat(MARK, &mut q);
    let once = format!("{:?}", q);
    default_any_pat(MARK, &mut q);
    assert_eq!(format!("{:?}", q), once);
}

#[test]
fn rest_parameter_is_never_defaulted() {
    let rest = RestPat { span: sp(0, 7), arg: Box::new(pat("xs", 3)), type_ann: None };
    let mut p = TsFnParam::Rest(RestPat {
        span: sp(0, 7),
        arg: Box::new(pat("xs", 3)),
        type_ann: None,
    });
    default_any_param(MARK, &mut p);
    assert_eq!(p, TsFnParam::Rest(rest));
}

#[test]
fn rest_and_default_patterns_are_left_alone() {
    let mut p = Pat::Rest(RestPat { span: sp(0, 7), arg: Box::new(pat("xs", 3)), type_ann: None });
    default_any_pat(MARK, &mut p);
    assert_eq!(
        p,
        Pat::Rest(RestPat { span: sp(0, 7), arg: Box::new(pat("xs", 3)), type_ann: None })
    );
}

#[test]
fn every_parameter_of_a_list_is_defaulted() {
    let mut ps = List::from_vec(vec![
        TsFnParam::Ident(binding("a", 0)),
        TsFnParam::Ident(BindingIdent { id: ident("b", 3), type_ann: Some(string_ann()) }),
        TsFnParam::Array(array_pat(sp(6, 9), vec![Some(pat("c", 7))])),
    ]);
    default_any_params(MARK, &mut ps);
    let ps = ps.into_vec();
    match &ps[0] {
        TsFnParam::Ident(b) => assert_eq!(
            b.type_ann,
            Some(TsTypeAnn { span: marked_dummy(), type_ann: Box::new(any(marked_dummy())) })
        ),
        other => panic!("unexpected parameter {:?}", other),
    }
    match &ps[1] {
        TsFnParam::Ident(b) => assert_eq!(b.type_ann, Some(string_ann())),
        other => panic!("unexpected parameter {:?}", other),
    }
    match &ps[2] {
        TsFnParam::Array(a) => assert_eq!(
            a.type_ann,
            Some(TsTypeAnn {
                span: Span { lo: 6, hi: 9, ctxt: 0b100 },
                type_ann: Box::new(tuple(vec![elem(sp(7, 8), any(dummy()))])),
            })
        ),
        other => panic!("unexpected parameter {:?}", other),
    }
}

#[test]
fn every_implicit_annotation_carries_the_mark() {
    let mut i = binding("x", 3);
    default_any_ident(MARK, &mut i);
    assert!(i.type_ann.unwrap().span.has_mark(MARK));

    let mut a = array_pat(sp(2, 9), vec![Some(pat("a", 3))]);
    default_any_array_pat(MARK, &mut a);
    let ann = a.type_ann.unwrap();
    assert!(ann.span.has_mark(MARK));
    assert_eq!((ann.span.lo, ann.span.hi), (2, 9));

    let mut o = ObjectPat { span: sp(0, 5), props: List::Nil, optional: false, type_ann: None };
    default_any_object(MARK, &mut o);
    assert!(o.type_ann.unwrap().span.has_mark(MARK));

    // A written annotation stays unmarked.
    let mut w = BindingIdent { id: ident("x", 3), type_ann: Some(string_ann()) };
    default_any_ident(MARK, &mut w);
    assert!(!w.type_ann.unwrap().span.has_mark(MARK));
}

#[test]
fn invalid_pattern_is_left_alone_and_counts_as_any_in_a_tuple() {
    let mut p = Pat::Invalid(Invalid { span: sp(4, 5) });
    default_any_pat(MARK, &mut p);
    assert_eq!(p, Pat::Invalid(Invalid { span: sp(4, 5) }));

    let mut arr = array_pat(sp(0, 9), vec![Some(Pat::Invalid(Invalid { span: sp(4, 5) }))]);
    default_any_array_pat(MARK, &mut arr);
    assert_eq!(
        arr.type_ann.unwrap().type_ann,
        Box::new(tuple(vec![elem(sp(4, 5), any(dummy()))]))
    );
}
