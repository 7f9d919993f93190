use ts_lowering::ast::{TsKeywordType, TsKeywordTypeKind};
use ts_lowering::errors::Error;
use ts_lowering::list::List;
use ts_lowering::span::Span;
use ts_lowering::ty::{Array, Tuple, TupleElement, Type, Union};
use ts_lowering::type_cast::{validate_type_cast_inner, CastDecision};

fn sp(lo: u32, hi: u32) -> Span {
    Span { lo, hi, ctxt: 0 }
}

fn kw(kind: TsKeywordTypeKind) -> Type {
    Type::Keyword(TsKeywordType { span: sp(0, 0), kind })
}

fn tuple(span: Span, tys: Vec<Type>) -> Type {
    let elems: Vec<TupleElement> =
        tys.into_iter().map(|ty| TupleElement { span: sp(0, 0), label: None, ty }).collect();
    Type::Tuple(Tuple { span, elems: List::from_vec(elems) })
}

fn union(tys: Vec<Type>) -> Type {
    Type::Union(Union { span: sp(0, 0), types: List::from_vec(tys) })
}

fn array(elem: Type) -> Type {
    Type::Array(Array { span: sp(0, 0), elem_type: Box::new(elem) })
}

#[test]
fn tuple_of_two_to_tuple_of_three_is_an_arity_mismatch() {
    let orig = tuple(
        sp(1, 2),
        vec![kw(TsKeywordTypeKind::TsNumberKeyword), kw(TsKeywordTypeKind::TsStringKeyword)],
    );
    let casted = tuple(
        sp(3, 4),
        vec![
            kw(TsKeywordTypeKind::TsNumberKeyword),
            kw(TsKeywordTypeKind::TsStringKeyword),
            kw(TsKeywordTypeKind::TsStringKeyword),
        ],
    );
    assert_eq!(
        validate_type_cast_inner(sp(9, 10), &orig, &casted),
        Err(Error::InvalidTupleCast { span: sp(9, 10), left: sp(3, 4), right: sp(1, 2) })
    );
}

#[test]
fn tuple_to_array_looks_at_the_first_element_only() {
    let orig = tuple(
        sp(1, 2),
        vec![kw(TsKeywordTypeKind::TsStringKeyword), kw(TsKeywordTypeKind::TsNumberKeyword)],
    );
    assert_eq!(
        validate_type_cast_inner(sp(0, 0), &orig, &array(kw(TsKeywordTypeKind::TsStringKeyword))),
        Ok(CastDecision::Permitted)
    );
    assert_eq!(
        validate_type_cast_inner(sp(0, 0), &orig, &array(kw(TsKeywordTypeKind::TsNumberKeyword))),
        Ok(CastDecision::Deferred)
    );
}

#[test]
fn union_to_one_of_its_members_is_permitted() {
    let orig = union(vec![
        kw(TsKeywordTypeKind::TsStringKeyword),
        kw(TsKeywordTypeKind::TsNumberKeyword),
    ]);
    assert_eq!(
        validate_type_cast_inner(sp(0, 0), &orig, &kw(TsKeywordTypeKind::TsNumberKeyword)),
        Ok(CastDecision::Permitted)
    );
    assert_eq!(
        validate_type_cast_inner(sp(0, 0), &orig, &kw(TsKeywordTypeKind::TsBooleanKeyword)),
        Ok(CastDecision::Deferred)
    );
}
