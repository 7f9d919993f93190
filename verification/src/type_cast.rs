//! Which explicit casts are structurally permitted.
//!
//! Both types are expected fully expanded. The validator decides a narrow set
//! of casts itself and leaves every other cast to the caller's assignability
//! check: that it does not permit a cast never means that the cast is wrong.
//!
//! A tuple may be cast to a tuple of the same length when each element stays
//! what it is or is cast by one of the rules in turn: `[number, string |
//! number]` may be cast to `[number, number]`, which assignability alone
//! would refuse.

use vstd::prelude::*;
use crate::errors::Error;
use crate::list::{same_len_is_len_eq, List};
use crate::span::Span;
use crate::ty::{TupleElement, Type};
use crate::type_eq::type_alike;

verus! {

/// What the validator says of a cast that it does not reject.
#[derive(Clone, Copy, Debug, PartialEq, Eq, Structural)]
pub enum CastDecision {
    /// The cast is permitted; nothing more needs checking.
    Permitted,
    /// The validator has no opinion; the caller checks assignability.
    Deferred,
}

/// Whether some member of a union is structurally identical to `casted`.
pub open spec fn union_has(members: List<Type>, casted: Type) -> bool
    decreases members,
{
    match members {
        List::Nil => false,
        List::Cons(m, rest) => type_alike(casted, *m) || union_has(*rest, casted),
    }
}

/// Whether the validator itself permits the cast of a value of type `orig` to
/// `casted`:
/// * from a union to a type identical to one of its members;
/// * from a tuple to a tuple of the same length, each element being cast to
///   an identical type or by a cast that is permitted in turn;
/// * from a tuple to an array whose element type is identical to the type of
///   the tuple's first element.
pub open spec fn cast_permitted(orig: Type, casted: Type) -> bool
    decreases casted, 0nat,
{
    match orig {
        Type::Union(u) => union_has(u.types, casted),
        Type::Tuple(rt) => match casted {
            Type::Tuple(lt) => lt.elems.same_len(rt.elems) && elems_permitted(rt.elems, lt.elems),
            Type::Array(lt) => match rt.elems {
                List::Cons(first, _) => type_alike(first.ty, *lt.elem_type),
                List::Nil => false,
            },
            _ => false,
        },
        _ => false,
    }
}

/// Whether an element of type `orig` may stand where an element of type
/// `casted` is asked for: the two types are structurally identical, or the
/// cast from the one to the other is permitted. An element that stays what it
/// is never stands in the way of the cast of the tuple around it.
pub open spec fn elem_permitted(orig: Type, casted: Type) -> bool
    decreases casted, 1nat,
{
    type_alike(orig, casted) || cast_permitted(orig, casted)
}

/// Whether each element of `orig` may be cast to the element of `casted` at
/// the same place. Lists of different lengths are never permitted.
pub open spec fn elems_permitted(orig: List<TupleElement>, casted: List<TupleElement>) -> bool
    decreases casted, 0nat,
{
    match (orig, casted) {
        (List::Nil, List::Nil) => true,
        (List::Cons(r, rs), List::Cons(l, ls)) => elem_permitted(r.ty, l.ty) && elems_permitted(
            *rs,
            *ls,
        ),
        _ => false,
    }
}

/// Whether the cast is one between tuples of different lengths: the one cast
/// that the validator rejects.
pub open spec fn arity_mismatch(orig: Type, casted: Type) -> bool {
    match (orig, casted) {
        (Type::Tuple(rt), Type::Tuple(lt)) => !lt.elems.same_len(rt.elems),
        _ => false,
    }
}

/// The validator's answer for the cast at `span` of a value of type `orig`
/// to `casted`.
pub open spec fn cast_decision(span: Span, orig: Type, casted: Type) -> Result<
    CastDecision,
    Error,
> {
    if arity_mismatch(orig, casted) {
        Err(Error::InvalidTupleCast { span, left: casted.span_of(), right: orig.span_of() })
    } else if cast_permitted(orig, casted) {
        Ok(CastDecision::Permitted)
    } else {
        Ok(CastDecision::Deferred)
    }
}

/// A cast that is rejected is not permitted.
pub proof fn mismatch_is_not_permitted(orig: Type, casted: Type)
    ensures
        arity_mismatch(orig, casted) ==> !cast_permitted(orig, casted),
{
}

/// Tells whether some member of a union is structurally identical to
/// `casted`.
fn union_member_matches(members: &List<Type>, casted: &Type) -> (b: bool)
    ensures
        b == union_has(*members, *casted),
    decreases *members,
{
    match members {
        List::Nil => false,
        List::Cons(m, rest) => casted.type_eq(m) || union_member_matches(rest, casted),
    }
}

/// Tells whether an element of type `orig` may stand where one of type
/// `casted` is asked for.
fn elem_castable(span: Span, orig: &Type, casted: &Type) -> (b: bool)
    ensures
        b == elem_permitted(*orig, *casted),
    decreases *casted, 1nat,
{
    proof {
        mismatch_is_not_permitted(*orig, *casted);
    }
    if orig.type_eq(casted) {
        return true;
    }
    match validate_type_cast_inner(span, orig, casted) {
        Ok(CastDecision::Permitted) => true,
        _ => false,
    }
}

/// Walks two element lists side by side and stops at the first pair whose
/// cast is not permitted.
fn all_elems_castable(span: Span, orig: &List<TupleElement>, casted: &List<TupleElement>) -> (b:
    bool)
    ensures
        b == elems_permitted(*orig, *casted),
    decreases *casted, 0nat,
{
    match (orig, casted) {
        (List::Nil, List::Nil) => true,
        (List::Cons(r, rs), List::Cons(l, ls)) => elem_castable(span, &r.ty, &l.ty)
            && all_elems_castable(span, rs, ls),
        _ => false,
    }
}

/// Decides the cast at `span` of a value of type `orig_ty` to `casted_ty`.
///
/// Returns the tuple cast error exactly when both are tuples of different
/// lengths, `Permitted` exactly when one of the three rules of
/// [`cast_permitted`] applies, and `Deferred` otherwise.
pub fn validate_type_cast_inner(span: Span, orig_ty: &Type, casted_ty: &Type) -> (r: Result<
    CastDecision,
    Error,
>)
    ensures
        r == cast_decision(span, *orig_ty, *casted_ty),
    decreases *casted_ty, 0nat,
{
    match orig_ty {
        Type::Union(rt) => {
            if union_member_matches(&rt.types, casted_ty) {
                return Ok(CastDecision::Permitted);
            }
        },
        _ => {},
    }
    match casted_ty {
        Type::Tuple(lt) => {
            match orig_ty {
                Type::Tuple(rt) => {
                    if !lt.elems.has_same_len(&rt.elems) {
                        return Err(
                            Error::InvalidTupleCast { span, left: lt.span, right: rt.span },
                        );
                    }
                    if all_elems_castable(span, &rt.elems, &lt.elems) {
                        return Ok(CastDecision::Permitted);
                    }
                },
                _ => {},
            }
        },
        Type::Array(lt) => {
            match orig_ty {
                Type::Tuple(rt) => {
                    match &rt.elems {
                        List::Cons(first, _) => {
                            if first.ty.type_eq(&lt.elem_type) {
                                return Ok(CastDecision::Permitted);
                            }
                        },
                        List::Nil => {},
                    }
                },
                _ => {},
            }
        },
        _ => {},
    }
    Ok(CastDecision::Deferred)
}

/// A cast between tuples is rejected exactly when their lengths differ, and
/// then with the spans of both; no other cast is rejected.
pub proof fn only_arity_mismatch_is_rejected(span: Span, orig: Type, casted: Type)
    ensures
        cast_decision(span, orig, casted) is Err <==> (orig is Tuple && casted is Tuple
            && orig->Tuple_0.elems.len() != casted->Tuple_0.elems.len()),
        cast_decision(span, orig, casted) is Err ==> cast_decision(span, orig, casted) == Err::<
            CastDecision,
            Error,
        >(
            Error::InvalidTupleCast {
                span,
                left: casted->Tuple_0.span,
                right: orig->Tuple_0.span,
            },
        ),
{
    match (orig, casted) {
        (Type::Tuple(rt), Type::Tuple(lt)) => {
            same_len_is_len_eq(lt.elems, rt.elems);
        },
        _ => {},
    }
}

/// A cast between tuples of the same length is permitted exactly when every
/// element is cast to an identical type or by a permitted cast, and is
/// deferred otherwise.
pub proof fn tuple_cast_goes_by_elements(span: Span, orig: Type, casted: Type)
    requires
        orig is Tuple,
        casted is Tuple,
        orig->Tuple_0.elems.len() == casted->Tuple_0.elems.len(),
    ensures
        cast_decision(span, orig, casted) == Ok::<CastDecision, Error>(
            if forall|i: int|
                0 <= i < orig->Tuple_0.elems.len() ==> elem_permitted(
                    (#[trigger] orig->Tuple_0.elems@[i]).ty,
                    casted->Tuple_0.elems@[i].ty,
                ) {
                CastDecision::Permitted
            } else {
                CastDecision::Deferred
            },
        ),
{
    let rt = orig->Tuple_0.elems;
    let lt = casted->Tuple_0.elems;
    same_len_is_len_eq(lt, rt);
    elems_permitted_is_pointwise(rt, lt);
}

/// Element lists of one length are permitted exactly when the elements are,
/// place by place.
pub proof fn elems_permitted_is_pointwise(orig: List<TupleElement>, casted: List<TupleElement>)
    requires
        orig.len() == casted.len(),
    ensures
        orig@.len() == orig.len(),
        casted@.len() == casted.len(),
        elems_permitted(orig, casted) <==> forall|i: int|
            0 <= i < orig.len() ==> elem_permitted((#[trigger] orig@[i]).ty, casted@[i].ty),
    decreases casted,
{
    same_len_is_len_eq(orig, casted);
    same_len_is_len_eq(casted, orig);
    match (orig, casted) {
        (List::Cons(r, rs), List::Cons(l, ls)) => {
            elems_permitted_is_pointwise(*rs, *ls);
            assert(orig@ =~= seq![*r] + rs@);
            assert(casted@ =~= seq![*l] + ls@);
            if elems_permitted(orig, casted) {
                assert forall|i: int| 0 <= i < orig.len() implies elem_permitted(
                    (#[trigger] orig@[i]).ty,
                    casted@[i].ty,
                ) by {
                    if i > 0 {
                        assert(orig@[i] == rs@[i - 1]);
                        assert(casted@[i] == ls@[i - 1]);
                    }
                }
            }
            if forall|i: int|
                0 <= i < orig.len() ==> elem_permitted((#[trigger] orig@[i]).ty, casted@[i].ty) {
                assert(orig@[0] == *r);
                assert(elem_permitted(r.ty, l.ty));
                assert forall|i: int| 0 <= i < rs.len() implies elem_permitted(
                    (#[trigger] rs@[i]).ty,
                    ls@[i].ty,
                ) by {
                    assert(orig@[i + 1] == rs@[i]);
                    assert(casted@[i + 1] == ls@[i]);
                }
            }
        },
        _ => {},
    }
}

/// An element that is cast to an identical type does not stand in the way
/// of the cast of its tuple: where two tuples of one length agree in every
/// element but one, the cast between them is permitted exactly when that one
/// element may be cast.
pub proof fn tuple_cast_goes_by_the_elements_that_differ(
    span: Span,
    orig: Type,
    casted: Type,
    at: int,
)
    requires
        orig is Tuple,
        casted is Tuple,
        orig->Tuple_0.elems.len() == casted->Tuple_0.elems.len(),
        0 <= at < orig->Tuple_0.elems.len(),
        forall|i: int|
            0 <= i < orig->Tuple_0.elems.len() && i != at ==> type_alike(
                (#[trigger] orig->Tuple_0.elems@[i]).ty,
                casted->Tuple_0.elems@[i].ty,
            ),
    ensures
        cast_decision(span, orig, casted) == Ok::<CastDecision, Error>(
            if elem_permitted(orig->Tuple_0.elems@[at].ty, casted->Tuple_0.elems@[at].ty) {
                CastDecision::Permitted
            } else {
                CastDecision::Deferred
            },
        ),
{
    tuple_cast_goes_by_elements(span, orig, casted);
    same_len_is_len_eq(orig->Tuple_0.elems, casted->Tuple_0.elems);
}

/// A cast from a tuple to an array looks at the tuple's first element alone:
/// it is permitted when that element's type is identical to the array's
/// element type, and deferred when it is not or when the tuple is empty.
pub proof fn array_cast_goes_by_first_element(span: Span, orig: Type, casted: Type)
    requires
        orig is Tuple,
        casted is Array,
    ensures
        cast_decision(span, orig, casted) == Ok::<CastDecision, Error>(
            if orig->Tuple_0.elems.len() > 0 && type_alike(
                orig->Tuple_0.elems@[0].ty,
                *casted->Array_0.elem_type,
            ) {
                CastDecision::Permitted
            } else {
                CastDecision::Deferred
            },
        ),
{
    let rt = orig->Tuple_0.elems;
    match rt {
        List::Cons(first, rest) => {
            assert(rt@ =~= seq![*first] + rest@);
        },
        List::Nil => {},
    }
}

/// A cast from a union is permitted exactly when the target is identical to
/// one of the union's members, and deferred otherwise.
pub proof fn union_cast_goes_by_members(span: Span, orig: Type, casted: Type)
    requires
        orig is Union,
    ensures
        cast_decision(span, orig, casted) == Ok::<CastDecision, Error>(
            if exists|i: int|
                0 <= i < orig->Union_0.types@.len() && type_alike(
                    casted,
                    #[trigger] orig->Union_0.types@[i],
                ) {
                CastDecision::Permitted
            } else {
                CastDecision::Deferred
            },
        ),
{
    union_has_is_exists(orig->Union_0.types, casted);
}

/// A union has a member identical to `casted` exactly when one of its
/// members, at some place, is identical to it.
pub proof fn union_has_is_exists(members: List<Type>, casted: Type)
    ensures
        union_has(members, casted) <==> exists|i: int|
            0 <= i < members@.len() && type_alike(casted, #[trigger] members@[i]),
    decreases members,
{
    match members {
        List::Nil => {},
        List::Cons(m, rest) => {
            union_has_is_exists(*rest, casted);
            assert(members@ =~= seq![*m] + rest@);
            if union_has(members, casted) {
                if type_alike(casted, *m) {
                    assert(members@[0] == *m);
                } else {
                    let i = choose|i: int|
                        0 <= i < rest@.len() && type_alike(casted, #[trigger] rest@[i]);
                    assert(members@[i + 1] == rest@[i]);
                }
            }
            if exists|i: int|
                0 <= i < members@.len() && type_alike(casted, #[trigger] members@[i]) {
                let i = choose|i: int|
                    0 <= i < members@.len() && type_alike(casted, #[trigger] members@[i]);
                if i > 0 {
                    assert(members@[i] == rest@[i - 1]);
                }
            }
        },
    }
}

/// A cast from a type that is neither a union nor a tuple is always
/// deferred.
pub proof fn other_casts_are_deferred(span: Span, orig: Type, casted: Type)
    requires
        !(orig is Union),
        !(orig is Tuple),
    ensures
        cast_decision(span, orig, casted) == Ok::<CastDecision, Error>(CastDecision::Deferred),
{
}

} // verus!
