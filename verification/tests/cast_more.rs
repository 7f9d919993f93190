use ts_lowering::ast::{TsKeywordType, TsKeywordTypeKind};
use ts_lowering::errors::Error;
use ts_lowering::list::List;
use ts_lowering::span::Span;
use ts_lowering::ty::{Array, Tuple, TupleElement, Type, Union};
use ts_lowering::type_cast::{validate_type_cast_inner, CastDecision};

fn at(lo: u32, hi: u32) -> Span {
    Span { lo, hi, ctxt: 0 }
}

fn keyword(kind: TsKeywordTypeKind, lo: u32) -> Type {
    Type::Keyword(TsKeywordType { span: at(lo, lo + 1), kind })
}

fn number(lo: u32) -> Type {
    keyword(TsKeywordTypeKind::TsNumberKeyword, lo)
}

fn string(lo: u32) -> Type {
    keyword(TsKeywordTypeKind::TsStringKeyword, lo)
}

fn tuple_of(span: Span, tys: Vec<Type>) -> Type {
    let elems: Vec<TupleElement> =
        tys.into_iter().map(|ty| TupleElement { span: at(0, 0), label: None, ty }).collect();
    Type::Tuple(Tuple { span, elems: List::from_vec(elems) })
}

fn union_of(tys: Vec<Type>) -> Type {
    Type::Union(Union { span: at(0, 0), types: List::from_vec(tys) })
}

#[test]
fn tuple_cast_is_permitted_when_every_element_is() {
    // [string | number, number | string] to [number, string]
    let orig = tuple_of(
        at(1, 2),
        vec![union_of(vec![string(1), number(2)]), union_of(vec![number(3), string(4)])],
    );
    let casted = tuple_of(at(3, 4), vec![number(10), string(11)]);
    assert_eq!(validate_type_cast_inner(at(0, 9), &orig, &casted), Ok(CastDecision::Permitted));
}

#[test]
fn tuple_cast_with_a_union_element() {
    // [number, string | number] to [number, number]: the first element stays
    // what it is, the second is permitted because `number` is a member of
    // the union.
    let orig = tuple_of(at(1, 2), vec![number(0), union_of(vec![string(1), number(2)])]);
    let casted = tuple_of(at(3, 4), vec![number(5), number(6)]);
    assert_eq!(validate_type_cast_inner(at(0, 9), &orig, &casted), Ok(CastDecision::Permitted));

    // The second element alone.
    let second = union_of(vec![string(1), number(2)]);
    assert_eq!(
        validate_type_cast_inner(at(0, 9), &second, &number(7)),
        Ok(CastDecision::Permitted)
    );

    // A union without that member leaves the element, and with it the
    // tuple, to the caller.
    let other = union_of(vec![string(1), keyword(TsKeywordTypeKind::TsBooleanKeyword, 2)]);
    assert_eq!(
        validate_type_cast_inner(at(0, 9), &other, &number(7)),
        Ok(CastDecision::Deferred)
    );
    let orig = tuple_of(at(1, 2), vec![number(0), other]);
    let casted = tuple_of(at(3, 4), vec![number(5), number(6)]);
    assert_eq!(validate_type_cast_inner(at(0, 9), &orig, &casted), Ok(CastDecision::Deferred));
}

#[test]
fn identical_tuples_cast_to_each_other() {
    let orig = tuple_of(at(1, 2), vec![number(0), string(1)]);
    let casted = tuple_of(at(3, 4), vec![number(5), string(6)]);
    assert_eq!(validate_type_cast_inner(at(0, 9), &orig, &casted), Ok(CastDecision::Permitted));
    // An element that neither stays what it is nor is cast by a rule leaves
    // the tuple to the caller.
    let casted = tuple_of(at(3, 4), vec![number(5), number(6)]);
    assert_eq!(validate_type_cast_inner(at(0, 9), &orig, &casted), Ok(CastDecision::Deferred));
}

#[test]
fn nested_tuples_are_cast_element_by_element() {
    // [[number, string | number]] to [[number, number]]
    let inner = tuple_of(at(5, 6), vec![number(0), union_of(vec![string(1), number(2)])]);
    let orig = tuple_of(at(1, 2), vec![inner]);
    let casted = tuple_of(at(3, 4), vec![tuple_of(at(7, 8), vec![number(3), number(4)])]);
    assert_eq!(validate_type_cast_inner(at(0, 9), &orig, &casted), Ok(CastDecision::Permitted));
}

#[test]
fn nested_arity_mismatch_defers_and_does_not_reject() {
    // [[number, number]] to [[number]]
    let orig = tuple_of(at(1, 2), vec![tuple_of(at(5, 6), vec![number(0), number(1)])]);
    let casted = tuple_of(at(3, 4), vec![tuple_of(at(7, 8), vec![number(2)])]);
    assert_eq!(validate_type_cast_inner(at(0, 9), &orig, &casted), Ok(CastDecision::Deferred));
}

#[test]
fn empty_tuples_cast_to_each_other() {
    let orig = tuple_of(at(1, 2), vec![]);
    let casted = tuple_of(at(3, 4), vec![]);
    assert_eq!(validate_type_cast_inner(at(0, 9), &orig, &casted), Ok(CastDecision::Permitted));
}

#[test]
fn empty_tuple_to_array_is_deferred() {
    let orig = tuple_of(at(1, 2), vec![]);
    let casted = Type::Array(Array { span: at(3, 4), elem_type: Box::new(string(0)) });
    assert_eq!(validate_type_cast_inner(at(0, 9), &orig, &casted), Ok(CastDecision::Deferred));
}

#[test]
fn three_to_two_is_an_arity_mismatch_too() {
    let orig = tuple_of(at(1, 2), vec![number(0), number(1), number(2)]);
    let casted = tuple_of(at(3, 4), vec![number(0), number(1)]);
    assert_eq!(
        validate_type_cast_inner(at(0, 9), &orig, &casted),
        Err(Error::InvalidTupleCast { span: at(0, 9), left: at(3, 4), right: at(1, 2) })
    );
}

#[test]
fn other_casts_are_left_to_the_caller() {
    assert_eq!(
        validate_type_cast_inner(at(0, 9), &number(0), &string(1)),
        Ok(CastDecision::Deferred)
    );
    assert_eq!(
        validate_type_cast_inner(at(0, 9), &number(0), &number(1)),
        Ok(CastDecision::Deferred)
    );
    let arr = Type::Array(Array { span: at(3, 4), elem_type: Box::new(string(0)) });
    assert_eq!(
        validate_type_cast_inner(at(0, 9), &arr, &tuple_of(at(1, 2), vec![string(0)])),
        Ok(CastDecision::Deferred)
    );
}

#[test]
fn structural_identity_ignores_spans() {
    let a = tuple_of(at(1, 2), vec![number(0), string(1)]);
    let b = tuple_of(at(30, 40), vec![number(50), string(60)]);
    assert!(a.type_eq(&b));
    let c = tuple_of(at(1, 2), vec![string(0), number(1)]);
    assert!(!a.type_eq(&c));
    assert!(!a.type_eq(&number(0)));
    // A union has a member identical to the target whatever the spans are.
    let u = union_of(vec![a]);
    assert_eq!(validate_type_cast_inner(at(0, 9), &u, &b), Ok(CastDecision::Permitted));
}
