use ts_lowering::ast::{TsKeywordType, TsKeywordTypeKind, TsLit};
use ts_lowering::expr::{
    prop_name_to_expr, BigInt, ComputedPropName, Expr, Number, OpaqueExpr, PropName, Str,
    TsEntityName, TsQualifiedName,
};
use ts_lowering::ident::Ident;
use ts_lowering::list::List;
use ts_lowering::span::{Mark, Span};
use ts_lowering::ty::{Array, InferType, Type, TypeParam};
use ts_lowering::util::contains_infer_type;

fn pos(lo: u32) -> Span {
    Span { lo, hi: lo + 1, ctxt: 0 }
}

fn word(s: &str, lo: u32) -> Ident {
    Ident { span: pos(lo), ctxt: 0, sym: s.to_string(), optional: false }
}

#[test]
fn list_keeps_the_order_of_a_vector() {
    let l = List::from_vec(vec![1, 2, 3]);
    assert_eq!(
        l,
        List::cons(1, List::cons(2, List::cons(3, List::Nil)))
    );
    assert_eq!(l.into_vec(), vec![1, 2, 3]);
    assert_eq!(List::<u8>::from_vec(vec![]), List::Nil);
    assert!(List::<u8>::new().is_empty());
}

#[test]
fn list_push_and_append_add_at_the_end() {
    let mut l = List::from_vec(vec![1, 2]);
    l.push(3);
    l.append(List::from_vec(vec![4, 5]));
    assert!(!l.is_empty());
    assert!(l.has_same_len(&List::from_vec(vec!['a', 'b', 'c', 'd', 'e'])));
    assert!(!l.has_same_len(&List::from_vec(vec!['a'])));
    assert_eq!(l.into_vec(), vec![1, 2, 3, 4, 5]);
    assert_eq!(List::cons(0, List::from_vec(vec![1])).into_vec(), vec![0, 1]);
}

#[test]
fn marks_accumulate_on_a_span() {
    let s = Span { lo: 3, hi: 9, ctxt: 0 };
    assert!(!s.has_mark(Mark(1)));
    let m = s.apply_mark(Mark(1));
    assert_eq!(m, Span { lo: 3, hi: 9, ctxt: 1 });
    assert!(m.has_mark(Mark(1)));
    assert!(!m.has_mark(Mark(2)));
    let both = m.apply_mark(Mark(2));
    assert_eq!(both.ctxt, 3);
    assert!(both.has_mark(Mark(1)) && both.has_mark(Mark(2)));
    assert_eq!(both.apply_mark(Mark(2)), both);
    // The root mark marks nothing and is never found.
    assert_eq!(s.apply_mark(Mark::root()), s);
    assert!(!both.has_mark(Mark::root()));
    assert_eq!(Span::dummy(), Span { lo: 0, hi: 0, ctxt: 0 });
}

#[test]
fn property_key_becomes_the_expression_of_its_kind() {
    assert_eq!(prop_name_to_expr(PropName::Ident(word("a", 1))), Expr::Ident(word("a", 1)));
    let s = Str { span: pos(2), value: "k".to_string() };
    assert_eq!(
        prop_name_to_expr(PropName::Str(s)),
        Expr::Str(Str { span: pos(2), value: "k".to_string() })
    );
    let n = Number { span: pos(3), bits: 4607182418800017408 };
    assert_eq!(prop_name_to_expr(PropName::Num(n)), Expr::Num(n));
    let b = BigInt { span: pos(4), digits: "12".to_string() };
    assert_eq!(
        prop_name_to_expr(PropName::BigInt(b)),
        Expr::BigInt(BigInt { span: pos(4), digits: "12".to_string() })
    );
    let inner = Expr::Opaque(OpaqueExpr { span: pos(6), handle: 9 });
    let c = ComputedPropName { span: pos(5), expr: Box::new(inner) };
    assert_eq!(
        prop_name_to_expr(PropName::Computed(c)),
        Expr::Opaque(OpaqueExpr { span: pos(6), handle: 9 })
    );
}

#[test]
fn expressions_compare_without_their_positions() {
    assert!(Expr::Ident(word("a", 1)).eq_ignore_span(&Expr::Ident(word("a", 30))));
    assert!(!Expr::Ident(word("a", 1)).eq_ignore_span(&Expr::Ident(word("b", 1))));
    let q = |lo| {
        TsEntityName::TsQualifiedName(Box::new(TsQualifiedName {
            left: TsEntityName::Ident(word("ns", lo)),
            right: word("T", lo + 3),
        }))
    };
    assert!(q(0).eq_ignore_span(&q(50)));
    assert!(!q(0).eq_ignore_span(&TsEntityName::Ident(word("ns", 0))));
    let one = TsLit::Number(Number { span: pos(0), bits: 1 });
    assert!(one.eq_ignore_span(&TsLit::Number(Number { span: pos(9), bits: 1 })));
    assert!(!one.eq_ignore_span(&TsLit::Number(Number { span: pos(0), bits: 2 })));
    assert_eq!(Expr::Ident(word("a", 7)).span(), pos(7));
}

#[test]
fn clone_gives_an_equal_type() {
    let t = Type::Array(Array {
        span: pos(1),
        elem_type: Box::new(Type::Keyword(TsKeywordType {
            span: pos(2),
            kind: TsKeywordTypeKind::TsStringKeyword,
        })),
    });
    assert_eq!(t.clone(), t);
    assert_eq!(t.span(), pos(1));
}

#[test]
fn root_mark_on_a_type_changes_only_the_outermost_span() {
    let mut t = Type::Array(Array {
        span: pos(1),
        elem_type: Box::new(Type::any(pos(2))),
    });
    t.apply_mark(Mark(2));
    assert_eq!(
        t,
        Type::Array(Array {
            span: Span { lo: 1, hi: 2, ctxt: 2 },
            elem_type: Box::new(Type::any(pos(2))),
        })
    );
}

#[test]
fn inference_positions_are_found_at_any_depth() {
    let infer = Type::Infer(InferType {
        span: pos(3),
        type_param: TypeParam {
            span: pos(4),
            name: ts_lowering::ident::Id { sym: "U".to_string(), ctxt: 0 },
            constraint: None,
            default: None,
        },
    });
    let nested = Type::Array(Array { span: pos(1), elem_type: Box::new(infer) });
    assert!(contains_infer_type(&nested));
    assert!(!contains_infer_type(&Type::any(pos(0))));
}

#[test]
fn identifiers_of_one_text_differ_by_their_context() {
    let a = word("T", 1);
    let mut b = word("T", 1);
    b.ctxt = 3;
    assert!(!a.eq_ignore_span(&b));
    assert_eq!(a.to_id(), ts_lowering::ident::Id { sym: "T".to_string(), ctxt: 0 });
    assert_eq!(b.to_id(), ts_lowering::ident::Id { sym: "T".to_string(), ctxt: 3 });
    assert!(!a.to_id().is(&b.to_id()));
    // The marks on the span of an identifier are no part of its name.
    let mut c = word("T", 1);
    c.span = c.span.apply_mark(Mark(8));
    assert!(a.to_id().is(&c.to_id()));
}
