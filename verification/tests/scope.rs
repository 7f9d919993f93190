use ts_lowering::ast::{TsKeywordType, TsKeywordTypeKind};
use ts_lowering::errors::Error;
use ts_lowering::ident::Id;
use ts_lowering::list::List;
use ts_lowering::scope::{ScopeKind, Scopes};
use ts_lowering::span::Span;
use ts_lowering::ty::{Placeholder, Type, TypeParam};

fn span(lo: u32) -> Span {
    Span { lo, hi: lo + 1, ctxt: 0 }
}

fn name(s: &str) -> Id {
    Id { sym: s.to_string(), ctxt: 0 }
}

fn open(s: &str, lo: u32) -> TypeParam {
    TypeParam { span: span(lo), name: name(s), constraint: None, default: None }
}

fn string() -> Type {
    Type::Keyword(TsKeywordType { span: span(0), kind: TsKeywordTypeKind::TsStringKeyword })
}

fn number() -> Type {
    Type::Keyword(TsKeywordType { span: span(0), kind: TsKeywordTypeKind::TsNumberKeyword })
}

#[test]
fn registering_a_parameter_hands_out_slots_in_order() {
    let mut s = Scopes::new();
    let t = s.register_param(open("T", 1)).unwrap();
    let u = s.register_param(open("U", 2)).unwrap();
    assert_eq!(t, Placeholder { span: span(1), name: name("T"), slot: 0 });
    assert_eq!(u, Placeholder { span: span(2), name: name("U"), slot: 1 });
    assert_eq!(s.find_param(&name("T")), Some(t));
    assert_eq!(s.find_param(&name("V")), None);
}

#[test]
fn registering_a_parameter_again_keeps_its_slot() {
    let mut s = Scopes::new();
    s.register_param(open("T", 1)).unwrap();
    s.register_param(open("U", 2)).unwrap();
    let filled = TypeParam {
        span: span(1),
        name: name("T"),
        constraint: Some(Box::new(string())),
        default: None,
    };
    let again = s.register_param(filled).unwrap();
    assert_eq!(again.slot, 0);
    assert_eq!(s.next_slot, 2);
    assert_eq!(s.param(0).unwrap().constraint, Some(Box::new(string())));
    assert_eq!(s.param(1).unwrap().constraint, None);
    assert_eq!(s.param(2), None);
}

#[test]
fn inner_scope_shadows_and_pop_restores() {
    let mut s = Scopes::new();
    let outer = s.register_param(open("T", 1)).unwrap();
    s.push_scope(ScopeKind::Fn);
    let inner = s.register_param(open("T", 5)).unwrap();
    assert_ne!(inner.slot, outer.slot);
    // Innermost first.
    assert_eq!(
        s.find_type(&name("T")),
        List::from_vec(vec![Type::Param(inner), Type::Param(outer)])
    );
    s.pop_scope();
    let outer_again = Placeholder { span: span(1), name: name("T"), slot: 0 };
    assert_eq!(s.find_type(&name("T")), List::from_vec(vec![Type::Param(outer_again)]));
    // The slot of the inner parameter is still there.
    assert_eq!(s.param(1).unwrap().span, span(5));
}

#[test]
fn the_outermost_scope_is_never_closed() {
    let mut s = Scopes::new();
    s.register_type(name("A"), string()).unwrap();
    s.pop_scope();
    assert_eq!(s.find_type(&name("A")), List::from_vec(vec![string()]));
}

#[test]
fn a_name_cannot_be_silently_rebound() {
    let mut s = Scopes::new();
    assert_eq!(s.register_type(name("A"), string()), Ok(()));
    // The same type again, whatever its span: fine, and nothing is added.
    let same = Type::Keyword(TsKeywordType {
        span: span(77),
        kind: TsKeywordTypeKind::TsStringKeyword,
    });
    assert_eq!(s.register_type(name("A"), same), Ok(()));
    assert_eq!(s.find_type(&name("A")), List::from_vec(vec![string()]));
    // A different type: refused, and nothing changes.
    assert_eq!(
        s.register_type(name("A"), number()),
        Err(Error::DuplicateName { name: name("A"), span: span(0) })
    );
    assert_eq!(s.find_type(&name("A")), List::from_vec(vec![string()]));
    // In an inner scope the name may be bound anew.
    s.push_scope(ScopeKind::Flow);
    assert_eq!(s.register_type(name("A"), number()), Ok(()));
    assert_eq!(s.find_type(&name("A")), List::from_vec(vec![number(), string()]));
}

#[test]
fn a_parameter_and_a_type_may_share_a_name() {
    let mut s = Scopes::new();
    let t = s.register_param(open("T", 1)).unwrap();
    assert_eq!(s.register_type(name("T"), string()), Ok(()));
    assert_eq!(s.find_type(&name("T")), List::from_vec(vec![string(), Type::Param(t)]));
    let t = Placeholder { span: span(1), name: name("T"), slot: 0 };
    assert_eq!(s.find_param(&name("T")), Some(t));
}

#[test]
fn names_differ_by_their_context() {
    let mut s = Scopes::new();
    s.register_type(name("A"), string()).unwrap();
    let marked = Id { sym: "A".to_string(), ctxt: 8 };
    assert_eq!(s.find_type(&marked), List::Nil);
}

#[test]
fn running_out_of_slots_changes_nothing() {
    let mut s = Scopes::new();
    s.next_slot = u64::MAX;
    assert_eq!(
        s.register_param(open("T", 1)),
        Err(Error::TooManyTypeParams { span: span(1) })
    );
    assert_eq!(s.find_param(&name("T")), None);
    assert_eq!(s.next_slot, u64::MAX);
}
