//! The registry of named types: a stack of lexical scopes, and the
//! placeholders that stand for type parameters.
//!
//! A placeholder is known by its slot. The registry hands out each slot once
//! and never takes one back, so a use of a type parameter stays valid after
//! the scope that declared the parameter is closed.

use vstd::prelude::*;
use crate::errors::Error;
use crate::ident::Id;
use crate::list::List;
use crate::ty::{Placeholder, Type, TypeParam};
use crate::type_eq::{type_alike, type_alike_is_reflexive};

verus! {

/// What a scope belongs to.
#[derive(Clone, Copy, Debug, PartialEq, Eq, Structural)]
pub enum ScopeKind {
    /// The outermost scope.
    Module,
    /// The scope of a function or of a method signature.
    Fn,
    /// The scope of a declaration.
    Flow,
}

/// A name and what it is bound to.
#[derive(Debug, PartialEq, Eq)]
pub struct Binding {
    pub name: Id,
    pub ty: Type,
}

/// One lexical scope. `types` holds its bindings, the latest first.
#[derive(Debug, PartialEq, Eq)]
pub struct Scope {
    pub kind: ScopeKind,
    pub types: List<Binding>,
}

/// What a slot holds: the type parameter as last registered.
#[derive(Debug, PartialEq, Eq)]
pub struct Slot {
    pub slot: u64,
    pub param: TypeParam,
}

/// The registry: the innermost scope, the scopes around it from the nearest
/// outwards, and the placeholders handed out so far.
#[derive(Debug, PartialEq, Eq)]
pub struct Scopes {
    pub current: Scope,
    pub parents: List<Scope>,
    pub slots: List<Slot>,
    pub next_slot: u64,
}

/// What the bindings bind `name` to, in their order.
pub open spec fn named(bindings: List<Binding>, name: Id) -> List<Type>
    decreases bindings,
{
    match bindings {
        List::Nil => List::Nil,
        List::Cons(b, rest) => if b.name.same(name) {
            List::Cons(Box::new(b.ty), Box::new(named(*rest, name)))
        } else {
            named(*rest, name)
        },
    }
}

/// What the scopes bind `name` to, the first scope's bindings first.
pub open spec fn named_in(scopes: List<Scope>, name: Id) -> List<Type>
    decreases scopes,
{
    match scopes {
        List::Nil => List::Nil,
        List::Cons(s, rest) => named(s.types, name).appended(named_in(*rest, name)),
    }
}

/// The first placeholder among `types`.
pub open spec fn first_placeholder(types: List<Type>) -> Option<Placeholder>
    decreases types,
{
    match types {
        List::Nil => None,
        List::Cons(t, rest) => match *t {
            Type::Param(p) => Some(p),
            _ => first_placeholder(*rest),
        },
    }
}

/// The first of the bindings that binds `name` to a placeholder.
pub open spec fn placeholder_of(bindings: List<Binding>, name: Id) -> Option<Placeholder> {
    first_placeholder(named(bindings, name))
}

/// The first of the bindings that binds `name` to something other than a
/// placeholder.
pub open spec fn declared_as(bindings: List<Binding>, name: Id) -> Option<Type>
    decreases bindings,
{
    match bindings {
        List::Nil => None,
        List::Cons(b, rest) => if b.name.same(name) && !(b.ty is Param) {
            Some(b.ty)
        } else {
            declared_as(*rest, name)
        },
    }
}

/// The bindings with the first placeholder of `name` replaced by `ph`.
pub open spec fn rebound(bindings: List<Binding>, name: Id, ph: Placeholder) -> List<Binding>
    decreases bindings,
{
    match bindings {
        List::Nil => List::Nil,
        List::Cons(b, rest) => if b.name.same(name) && b.ty is Param {
            List::Cons(Box::new(Binding { name: b.name, ty: Type::Param(ph) }), rest)
        } else {
            List::Cons(b, Box::new(rebound(*rest, name, ph)))
        },
    }
}

/// The slots with the content of slot `slot` replaced by `param`.
pub open spec fn refilled(slots: List<Slot>, slot: u64, param: TypeParam) -> List<Slot>
    decreases slots,
{
    match slots {
        List::Nil => List::Nil,
        List::Cons(s, rest) => if s.slot == slot {
            List::Cons(Box::new(Slot { slot, param }), rest)
        } else {
            List::Cons(s, Box::new(refilled(*rest, slot, param)))
        },
    }
}

/// What slot `slot` holds.
pub open spec fn slot_content(slots: List<Slot>, slot: u64) -> Option<TypeParam>
    decreases slots,
{
    match slots {
        List::Nil => None,
        List::Cons(s, rest) => if s.slot == slot {
            Some(s.param)
        } else {
            slot_content(*rest, slot)
        },
    }
}

/// Whether every placeholder among the bindings has a slot below `bound`.
pub open spec fn bindings_below(bindings: List<Binding>, bound: u64) -> bool
    decreases bindings,
{
    match bindings {
        List::Nil => true,
        List::Cons(b, rest) => (b.ty matches Type::Param(p) ==> p.slot < bound) && bindings_below(
            *rest,
            bound,
        ),
    }
}

/// Whether every placeholder bound in the scopes has a slot below `bound`.
pub open spec fn scopes_below(scopes: List<Scope>, bound: u64) -> bool
    decreases scopes,
{
    match scopes {
        List::Nil => true,
        List::Cons(s, rest) => bindings_below(s.types, bound) && scopes_below(*rest, bound),
    }
}

/// Whether every slot is below `bound`.
pub open spec fn slots_below(slots: List<Slot>, bound: u64) -> bool
    decreases slots,
{
    match slots {
        List::Nil => true,
        List::Cons(s, rest) => s.slot < bound && slots_below(*rest, bound),
    }
}

impl Scopes {
    /// The registry's invariant: every placeholder that a scope binds, and
    /// every slot in use, was handed out by this registry.
    pub open spec fn wf(self) -> bool {
        &&& bindings_below(self.current.types, self.next_slot)
        &&& scopes_below(self.parents, self.next_slot)
        &&& slots_below(self.slots, self.next_slot)
    }

    /// What `name` may mean here: its bindings in the innermost scope, then
    /// those in each scope around it, from the nearest outwards.
    pub open spec fn candidates(self, name: Id) -> List<Type> {
        named(self.current.types, name).appended(named_in(self.parents, name))
    }

    /// The placeholder that `name` resolves to: the first among its
    /// candidates.
    pub open spec fn resolved(self, name: Id) -> Option<Placeholder> {
        first_placeholder(self.candidates(name))
    }

    /// The registry with a new, empty innermost scope.
    pub open spec fn pushed(self, kind: ScopeKind) -> Scopes {
        Scopes {
            current: Scope { kind, types: List::Nil },
            parents: List::Cons(Box::new(self.current), Box::new(self.parents)),
            slots: self.slots,
            next_slot: self.next_slot,
        }
    }

    /// The registry without its innermost scope. The outermost scope is
    /// never closed. Slots stay as they are.
    pub open spec fn popped(self) -> Scopes {
        match self.parents {
            List::Cons(parent, rest) => Scopes {
                current: *parent,
                parents: *rest,
                slots: self.slots,
                next_slot: self.next_slot,
            },
            List::Nil => self,
        }
    }

    /// The placeholder that registering `param` gives: the one that the
    /// innermost scope already binds the name to, if there is one, else a new
    /// one in the next free slot; an error when no slot is left.
    pub open spec fn param_outcome(self, param: TypeParam) -> Result<Placeholder, Error> {
        match placeholder_of(self.current.types, param.name) {
            Some(ph) => Ok(Placeholder { span: param.span, name: param.name, slot: ph.slot }),
            None => if self.next_slot == u64::MAX {
                Err(Error::TooManyTypeParams { span: param.span })
            } else {
                Ok(Placeholder { span: param.span, name: param.name, slot: self.next_slot })
            },
        }
    }

    /// The registry after `param` was registered.
    pub open spec fn with_param(self, param: TypeParam) -> Scopes {
        match placeholder_of(self.current.types, param.name) {
            Some(ph) => Scopes {
                current: Scope {
                    kind: self.current.kind,
                    types: rebound(
                        self.current.types,
                        param.name,
                        Placeholder { span: param.span, name: param.name, slot: ph.slot },
                    ),
                },
                parents: self.parents,
                slots: refilled(self.slots, ph.slot, param),
                next_slot: self.next_slot,
            },
            None => if self.next_slot == u64::MAX {
                self
            } else {
                Scopes {
                    current: Scope {
                        kind: self.current.kind,
                        types: List::Cons(
                            Box::new(
                                Binding {
                                    name: param.name,
                                    ty: Type::Param(
                                        Placeholder {
                                            span: param.span,
                                            name: param.name,
                                            slot: self.next_slot,
                                        },
                                    ),
                                },
                            ),
                            Box::new(self.current.types),
                        ),
                    },
                    parents: self.parents,
                    slots: List::Cons(
                        Box::new(Slot { slot: self.next_slot, param }),
                        Box::new(self.slots),
                    ),
                    next_slot: (self.next_slot + 1) as u64,
                }
            },
        }
    }

    /// Whether registering `ty` under `name` succeeds: the innermost scope
    /// must not bind `name` to a type, placeholders aside, that differs
    /// structurally from `ty`.
    pub open spec fn type_outcome(self, name: Id, ty: Type) -> Result<(), Error> {
        match declared_as(self.current.types, name) {
            Some(known) => if type_alike(known, ty) {
                Ok(())
            } else {
                Err(Error::DuplicateName { name, span: ty.span_of() })
            },
            None => Ok(()),
        }
    }

    /// The registry after `ty` was registered under `name`: a new binding in
    /// the innermost scope, unless the scope already binds the name to a type
    /// that is not a placeholder.
    pub open spec fn with_type(self, name: Id, ty: Type) -> Scopes {
        match declared_as(self.current.types, name) {
            Some(_) => self,
            None => Scopes {
                current: Scope {
                    kind: self.current.kind,
                    types: List::Cons(
                        Box::new(Binding { name, ty }),
                        Box::new(self.current.types),
                    ),
                },
                parents: self.parents,
                slots: self.slots,
                next_slot: self.next_slot,
            },
        }
    }

    /// A registry with one empty scope and no placeholder.
    pub fn new() -> (s: Scopes)
        ensures
            s == (Scopes {
                current: Scope { kind: ScopeKind::Module, types: List::Nil },
                parents: List::Nil,
                slots: List::Nil,
                next_slot: 0,
            }),
            s.wf(),
    {
        Scopes {
            current: Scope { kind: ScopeKind::Module, types: List::Nil },
            parents: List::Nil,
            slots: List::Nil,
            next_slot: 0,
        }
    }

    /// Opens a new innermost scope.
    pub fn push_scope(&mut self, kind: ScopeKind)
        ensures
            *final(self) == old(self).pushed(kind),
            old(self).wf() ==> final(self).wf(),
    {
        let mut inner = Scope { kind, types: List::Nil };
        core::mem::swap(&mut self.current, &mut inner);
        let mut outer: List<Scope> = List::Nil;
        core::mem::swap(&mut self.parents, &mut outer);
        self.parents = List::Cons(Box::new(inner), Box::new(outer));
    }

    /// Closes the innermost scope. Its bindings are gone for later lookups;
    /// placeholders keep their slots. The outermost scope stays open.
    pub fn pop_scope(&mut self)
        ensures
            *final(self) == old(self).popped(),
            old(self).wf() ==> final(self).wf(),
    {
        let mut outer: List<Scope> = List::Nil;
        core::mem::swap(&mut self.parents, &mut outer);
        match outer {
            List::Cons(parent, rest) => {
                self.current = *parent;
                self.parents = *rest;
            },
            List::Nil => {},
        }
    }

    /// Registers a type parameter in the innermost scope and hands back its
    /// placeholder.
    ///
    /// Where the scope already binds the name to a placeholder, that
    /// placeholder is kept: its slot now holds `param`. Otherwise the name is
    /// bound to a placeholder in a new slot. Fails only when no slot is left,
    /// and then changes nothing.
    pub fn register_param(&mut self, param: TypeParam) -> (r: Result<Placeholder, Error>)
        ensures
            r == old(self).param_outcome(param),
            *final(self) == old(self).with_param(param),
            old(self).wf() ==> final(self).wf(),
    {
        match find_placeholder(&self.current.types, &param.name) {
            Some(slot) => {
                let ph = Placeholder { span: param.span, name: param.name.clone(), slot };
                proof {
                    if self.wf() {
                        placeholder_is_below(self.current.types, param.name, self.next_slot);
                        rebound_stays_below(
                            self.current.types,
                            param.name,
                            ph,
                            self.next_slot,
                        );
                        refilled_stays_below(self.slots, slot, param, self.next_slot);
                    }
                }
                rebind(&mut self.current.types, &param.name, ph.clone());
                refill(&mut self.slots, slot, param);
                Ok(ph)
            },
            None => {
                if self.next_slot == u64::MAX {
                    return Err(Error::TooManyTypeParams { span: param.span });
                }
                let slot = self.next_slot;
                let ph = Placeholder { span: param.span, name: param.name.clone(), slot };
                proof {
                    below_is_monotone(*self, (slot + 1) as u64);
                }
                let mut types: List<Binding> = List::Nil;
                core::mem::swap(&mut self.current.types, &mut types);
                self.current.types = List::Cons(
                    Box::new(Binding { name: param.name.clone(), ty: Type::Param(ph.clone()) }),
                    Box::new(types),
                );
                let mut slots: List<Slot> = List::Nil;
                core::mem::swap(&mut self.slots, &mut slots);
                self.slots = List::Cons(Box::new(Slot { slot, param }), Box::new(slots));
                self.next_slot = slot + 1;
                Ok(ph)
            },
        }
    }

    /// Registers an alias, an interface or another type under `name` in the
    /// innermost scope.
    ///
    /// Fails, and changes nothing, exactly when the scope already binds the
    /// name to a type, placeholders aside, that is not structurally
    /// identical to `ty`. Registering an identical type again succeeds and
    /// changes nothing.
    pub fn register_type(&mut self, name: Id, ty: Type) -> (r: Result<(), Error>)
        ensures
            r == old(self).type_outcome(name, ty),
            *final(self) == (if r is Ok {
                old(self).with_type(name, ty)
            } else {
                *old(self)
            }),
            old(self).wf() && (ty matches Type::Param(p) ==> p.slot < old(self).next_slot)
                ==> final(self).wf(),
    {
        match find_declared_alike(&self.current.types, &name, &ty) {
            Some(same) => {
                if same {
                    Ok(())
                } else {
                    Err(Error::DuplicateName { name, span: ty.span() })
                }
            },
            None => {
                let mut types: List<Binding> = List::Nil;
                core::mem::swap(&mut self.current.types, &mut types);
                self.current.types = List::Cons(Box::new(Binding { name, ty }), Box::new(types));
                Ok(())
            },
        }
    }

    /// Everything that `name` may mean here, the innermost scope's bindings
    /// first.
    pub fn find_type(&self, name: &Id) -> (types: List<Type>)
        ensures
            types == self.candidates(*name),
    {
        let mut found = find_named(&self.current.types, name);
        found.append(find_named_in(&self.parents, name));
        found
    }

    /// The placeholder that `name` resolves to, if any of its candidates is
    /// one.
    pub fn find_param(&self, name: &Id) -> (ph: Option<Placeholder>)
        ensures
            ph == self.resolved(*name),
    {
        let types = self.find_type(name);
        pick_placeholder(&types)
    }

    /// What the slot of a placeholder holds: the type parameter as last
    /// registered.
    pub fn param(&self, slot: u64) -> (p: Option<TypeParam>)
        ensures
            p == slot_content(self.slots, slot),
    {
        find_slot(&self.slots, slot)
    }
}

/// Tells the slot of the first placeholder that the bindings bind `name` to.
fn find_placeholder(bindings: &List<Binding>, name: &Id) -> (slot: Option<u64>)
    ensures
        match placeholder_of(*bindings, *name) {
            Some(ph) => slot == Some(ph.slot),
            None => slot is None,
        },
    decreases *bindings,
{
    match bindings {
        List::Nil => None,
        List::Cons(b, rest) => {
            if b.name.is(name) {
                match &b.ty {
                    Type::Param(p) => Some(p.slot),
                    _ => find_placeholder(rest, name),
                }
            } else {
                find_placeholder(rest, name)
            }
        },
    }
}

/// Tells whether the bindings bind `name` to a type other than a
/// placeholder, and if so whether that type is identical to `ty`.
fn find_declared_alike(bindings: &List<Binding>, name: &Id, ty: &Type) -> (same: Option<bool>)
    ensures
        match declared_as(*bindings, *name) {
            Some(known) => same == Some(type_alike(known, *ty)),
            None => same is None,
        },
    decreases *bindings,
{
    match bindings {
        List::Nil => None,
        List::Cons(b, rest) => {
            if b.name.is(name) {
                match &b.ty {
                    Type::Param(_) => find_declared_alike(rest, name, ty),
                    known => Some(known.type_eq(ty)),
                }
            } else {
                find_declared_alike(rest, name, ty)
            }
        },
    }
}

fn rebind(bindings: &mut List<Binding>, name: &Id, ph: Placeholder)
    ensures
        *final(bindings) == rebound(*old(bindings), *name, ph),
    decreases *old(bindings),
{
    match bindings {
        List::Nil => {},
        List::Cons(b, rest) => {
            let hit = b.name.is(name) && match &b.ty {
                Type::Param(_) => true,
                _ => false,
            };
            if hit {
                b.ty = Type::Param(ph);
            } else {
                rebind(rest, name, ph);
            }
        },
    }
}

fn refill(slots: &mut List<Slot>, slot: u64, param: TypeParam)
    ensures
        *final(slots) == refilled(*old(slots), slot, param),
    decreases *old(slots),
{
    match slots {
        List::Nil => {},
        List::Cons(s, rest) => {
            if s.slot == slot {
                s.param = param;
            } else {
                refill(rest, slot, param);
            }
        },
    }
}

fn find_slot(slots: &List<Slot>, slot: u64) -> (p: Option<TypeParam>)
    ensures
        p == slot_content(*slots, slot),
    decreases *slots,
{
    match slots {
        List::Nil => None,
        List::Cons(s, rest) => {
            if s.slot == slot {
                Some(s.param.clone())
            } else {
                find_slot(rest, slot)
            }
        },
    }
}

fn find_named(bindings: &List<Binding>, name: &Id) -> (types: List<Type>)
    ensures
        types == named(*bindings, *name),
    decreases *bindings,
{
    match bindings {
        List::Nil => List::Nil,
        List::Cons(b, rest) => {
            if b.name.is(name) {
                List::Cons(Box::new(b.ty.clone()), Box::new(find_named(rest, name)))
            } else {
                find_named(rest, name)
            }
        },
    }
}

fn find_named_in(scopes: &List<Scope>, name: &Id) -> (types: List<Type>)
    ensures
        types == named_in(*scopes, *name),
    decreases *scopes,
{
    match scopes {
        List::Nil => List::Nil,
        List::Cons(s, rest) => {
            let mut found = find_named(&s.types, name);
            found.append(find_named_in(rest, name));
            found
        },
    }
}

fn pick_placeholder(types: &List<Type>) -> (ph: Option<Placeholder>)
    ensures
        ph == first_placeholder(*types),
    decreases *types,
{
    match types {
        List::Nil => None,
        List::Cons(t, rest) => match &**t {
            Type::Param(p) => Some(p.clone()),
            _ => pick_placeholder(rest),
        },
    }
}

proof fn placeholder_is_below(bindings: List<Binding>, name: Id, bound: u64)
    requires
        bindings_below(bindings, bound),
    ensures
        placeholder_of(bindings, name) matches Some(ph) ==> ph.slot < bound,
    decreases bindings,
{
    match bindings {
        List::Nil => {},
        List::Cons(_, rest) => placeholder_is_below(*rest, name, bound),
    }
}

proof fn rebound_stays_below(bindings: List<Binding>, name: Id, ph: Placeholder, bound: u64)
    requires
        bindings_below(bindings, bound),
        ph.slot < bound,
    ensures
        bindings_below(rebound(bindings, name, ph), bound),
    decreases bindings,
{
    match bindings {
        List::Nil => {},
        List::Cons(b, rest) => {
            rebound_stays_below(*rest, name, ph, bound);
        },
    }
}

proof fn refilled_stays_below(slots: List<Slot>, slot: u64, param: TypeParam, bound: u64)
    requires
        slots_below(slots, bound),
    ensures
        slots_below(refilled(slots, slot, param), bound),
    decreases slots,
{
    match slots {
        List::Nil => {},
        List::Cons(s, rest) => {
            refilled_stays_below(*rest, slot, param, bound);
        },
    }
}

proof fn bindings_below_is_monotone(bindings: List<Binding>, low: u64, high: u64)
    requires
        bindings_below(bindings, low),
        low <= high,
    ensures
        bindings_below(bindings, high),
    decreases bindings,
{
    match bindings {
        List::Nil => {},
        List::Cons(_, rest) => bindings_below_is_monotone(*rest, low, high),
    }
}

proof fn scopes_below_is_monotone(scopes: List<Scope>, low: u64, high: u64)
    requires
        scopes_below(scopes, low),
        low <= high,
    ensures
        scopes_below(scopes, high),
    decreases scopes,
{
    match scopes {
        List::Nil => {},
        List::Cons(s, rest) => {
            bindings_below_is_monotone(s.types, low, high);
            scopes_below_is_monotone(*rest, low, high);
        },
    }
}

proof fn slots_below_is_monotone(slots: List<Slot>, low: u64, high: u64)
    requires
        slots_below(slots, low),
        low <= high,
    ensures
        slots_below(slots, high),
    decreases slots,
{
    match slots {
        List::Nil => {},
        List::Cons(_, rest) => slots_below_is_monotone(*rest, low, high),
    }
}

proof fn below_is_monotone(s: Scopes, high: u64)
    requires
        s.next_slot <= high,
    ensures
        s.wf() ==> bindings_below(s.current.types, high) && scopes_below(s.parents, high)
            && slots_below(s.slots, high),
{
    if s.wf() {
        bindings_below_is_monotone(s.current.types, s.next_slot, high);
        scopes_below_is_monotone(s.parents, s.next_slot, high);
        slots_below_is_monotone(s.slots, s.next_slot, high);
    }
}

/// Whether every placeholder among `types` has a slot below `bound`.
pub open spec fn types_below(types: List<Type>, bound: u64) -> bool
    decreases types,
{
    match types {
        List::Nil => true,
        List::Cons(t, rest) => (*t matches Type::Param(p) ==> p.slot < bound) && types_below(
            *rest,
            bound,
        ),
    }
}

proof fn named_is_below(bindings: List<Binding>, name: Id, bound: u64)
    requires
        bindings_below(bindings, bound),
    ensures
        types_below(named(bindings, name), bound),
    decreases bindings,
{
    match bindings {
        List::Nil => {},
        List::Cons(_, rest) => named_is_below(*rest, name, bound),
    }
}

proof fn appended_is_below(a: List<Type>, b: List<Type>, bound: u64)
    requires
        types_below(a, bound),
        types_below(b, bound),
    ensures
        types_below(a.appended(b), bound),
    decreases a,
{
    match a {
        List::Nil => {},
        List::Cons(_, rest) => appended_is_below(*rest, b, bound),
    }
}

proof fn named_in_is_below(scopes: List<Scope>, name: Id, bound: u64)
    requires
        scopes_below(scopes, bound),
    ensures
        types_below(named_in(scopes, name), bound),
    decreases scopes,
{
    match scopes {
        List::Nil => {},
        List::Cons(s, rest) => {
            named_is_below(s.types, name, bound);
            named_in_is_below(*rest, name, bound);
            appended_is_below(named(s.types, name), named_in(*rest, name), bound);
        },
    }
}

proof fn first_placeholder_is_below(types: List<Type>, bound: u64)
    requires
        types_below(types, bound),
    ensures
        first_placeholder(types) matches Some(ph) ==> ph.slot < bound,
    decreases types,
{
    match types {
        List::Nil => {},
        List::Cons(_, rest) => first_placeholder_is_below(*rest, bound),
    }
}

proof fn first_placeholder_of_appended(a: List<Type>, b: List<Type>)
    ensures
        first_placeholder(a.appended(b)) == (match first_placeholder(a) {
            Some(ph) => Some(ph),
            None => first_placeholder(b),
        }),
    decreases a,
{
    match a {
        List::Nil => {},
        List::Cons(_, rest) => first_placeholder_of_appended(*rest, b),
    }
}

proof fn rebound_keeps_others(bindings: List<Binding>, name: Id, ph: Placeholder, other: Id)
    requires
        !other.same(name),
    ensures
        named(rebound(bindings, name, ph), other) == named(bindings, other),
    decreases bindings,
{
    match bindings {
        List::Nil => {},
        List::Cons(_, rest) => rebound_keeps_others(*rest, name, ph, other),
    }
}

proof fn rebound_puts_first(bindings: List<Binding>, name: Id, ph: Placeholder)
    requires
        placeholder_of(bindings, name) is Some,
    ensures
        placeholder_of(rebound(bindings, name, ph), name) == Some(ph),
    decreases bindings,
{
    match bindings {
        List::Nil => {},
        List::Cons(b, rest) => {
            if b.name.same(name) && b.ty is Param {
            } else {
                rebound_puts_first(*rest, name, ph);
            }
        },
    }
}

/// In a well-formed registry every name resolves to a placeholder that the
/// registry has handed out.
pub proof fn resolved_is_handed_out(s: Scopes, name: Id)
    requires
        s.wf(),
    ensures
        s.resolved(name) matches Some(ph) ==> ph.slot < s.next_slot,
{
    named_is_below(s.current.types, name, s.next_slot);
    named_in_is_below(s.parents, name, s.next_slot);
    appended_is_below(named(s.current.types, name), named_in(s.parents, name), s.next_slot);
    first_placeholder_is_below(s.candidates(name), s.next_slot);
}

/// Registering a type parameter again keeps its placeholder: where the
/// innermost scope binds the name to a placeholder, the name resolves to the
/// same slot after the registration as before it, the slot then holds the
/// parameter as registered, and what any other name resolves to is
/// unchanged.
pub proof fn reregistering_keeps_the_placeholder(s: Scopes, param: TypeParam, other: Id)
    requires
        placeholder_of(s.current.types, param.name) is Some,
    ensures
        s.resolved(param.name) is Some,
        s.with_param(param).resolved(param.name) is Some,
        s.with_param(param).resolved(param.name)->Some_0.slot == s.resolved(
            param.name,
        )->Some_0.slot,
        s.param_outcome(param) == Ok::<Placeholder, Error>(
            s.with_param(param).resolved(param.name)->Some_0,
        ),
        !other.same(param.name) ==> s.with_param(param).candidates(other) == s.candidates(other),
{
    let ph = placeholder_of(s.current.types, param.name)->Some_0;
    let new_ph = Placeholder { span: param.span, name: param.name, slot: ph.slot };
    first_placeholder_of_appended(
        named(s.current.types, param.name),
        named_in(s.parents, param.name),
    );
    rebound_puts_first(s.current.types, param.name, new_ph);
    first_placeholder_of_appended(
        named(rebound(s.current.types, param.name, new_ph), param.name),
        named_in(s.parents, param.name),
    );
    if !other.same(param.name) {
        rebound_keeps_others(s.current.types, param.name, new_ph, other);
    }
}

/// A type parameter declared in a new scope shadows an outer one of the same
/// name inside that scope only: inside, the name resolves to a placeholder
/// in a slot that no earlier placeholder has; once the scope is closed,
/// every name has the candidates that it had before the scope was opened.
pub proof fn inner_parameter_shadows_until_scope_closes(
    s: Scopes,
    kind: ScopeKind,
    param: TypeParam,
    name: Id,
)
    requires
        s.wf(),
        s.next_slot < u64::MAX,
    ensures
        s.pushed(kind).with_param(param).resolved(param.name) == Some(
            Placeholder { span: param.span, name: param.name, slot: s.next_slot },
        ),
        s.resolved(param.name) matches Some(outer) ==> outer.slot != s.next_slot,
        s.pushed(kind).with_param(param).popped().candidates(name) == s.candidates(name),
        s.pushed(kind).with_param(param).popped().current == s.current,
        s.pushed(kind).with_param(param).popped().parents == s.parents,
{
    resolved_is_handed_out(s, param.name);
}

/// Closing a scope undoes opening it: bindings made in between are gone, and
/// the scopes are those from before.
pub proof fn scopes_are_paired(s: Scopes, kind: ScopeKind)
    ensures
        s.pushed(kind).popped() == s,
{
}

/// Whether both are placeholders in the same slot.
pub open spec fn same_slot(a: Option<Placeholder>, b: Option<Placeholder>) -> bool {
    a is Some && b is Some && a->Some_0.slot == b->Some_0.slot
}

impl Scopes {
    /// Whether this registry is `before` after some registrations in the
    /// innermost scope: the scopes around it are untouched, no slot was
    /// taken back, every name that the innermost scope bound to a
    /// placeholder is still bound to the placeholder in that slot, and the
    /// registry is well formed if it was.
    pub open spec fn continues(self, before: Scopes) -> bool {
        &&& self.parents == before.parents
        &&& self.current.kind == before.current.kind
        &&& before.next_slot <= self.next_slot
        &&& before.wf() ==> self.wf()
        &&& forall|name: Id|
            (#[trigger] placeholder_of(before.current.types, name)) is Some ==> same_slot(
                placeholder_of(before.current.types, name),
                placeholder_of(self.current.types, name),
            )
    }
}

proof fn rebound_keeps_placeholders(bindings: List<Binding>, name: Id, ph: Placeholder, other: Id)
    requires
        placeholder_of(bindings, name) matches Some(old_ph) && old_ph.slot == ph.slot,
    ensures
        placeholder_of(bindings, other) is Some ==> same_slot(
            placeholder_of(bindings, other),
            placeholder_of(rebound(bindings, name, ph), other),
        ),
    decreases bindings,
{
    match bindings {
        List::Nil => {},
        List::Cons(b, rest) => {
            if b.name.same(name) && b.ty is Param {
            } else {
                if b.name.same(name) {
                    assert(placeholder_of(bindings, name) == placeholder_of(*rest, name));
                } else {
                    assert(placeholder_of(bindings, name) == placeholder_of(*rest, name));
                }
                rebound_keeps_placeholders(*rest, name, ph, other);
            }
        },
    }
}

/// Registering a type parameter continues the registry.
pub proof fn with_param_continues(s: Scopes, param: TypeParam)
    ensures
        s.with_param(param).continues(s),
{
    let after = s.with_param(param);
    match placeholder_of(s.current.types, param.name) {
        Some(ph) => {
            let new_ph = Placeholder { span: param.span, name: param.name, slot: ph.slot };
            assert forall|name: Id|
                (#[trigger] placeholder_of(s.current.types, name)) is Some implies same_slot(
                placeholder_of(s.current.types, name),
                placeholder_of(after.current.types, name),
            ) by {
                rebound_keeps_placeholders(s.current.types, param.name, new_ph, name);
            }
            if s.wf() {
                placeholder_is_below(s.current.types, param.name, s.next_slot);
                rebound_stays_below(s.current.types, param.name, new_ph, s.next_slot);
                refilled_stays_below(s.slots, ph.slot, param, s.next_slot);
            }
        },
        None => {
            if s.next_slot != u64::MAX {
                below_is_monotone(s, (s.next_slot + 1) as u64);
                assert forall|name: Id|
                    (#[trigger] placeholder_of(s.current.types, name)) is Some implies same_slot(
                    placeholder_of(s.current.types, name),
                    placeholder_of(after.current.types, name),
                ) by {
                    if name.same(param.name) {
                        named_goes_by_sameness(s.current.types, name, param.name);
                    }
                }
            }
        },
    }
}

proof fn named_goes_by_sameness(bindings: List<Binding>, a: Id, b: Id)
    requires
        a.same(b),
    ensures
        named(bindings, a) == named(bindings, b),
    decreases bindings,
{
    match bindings {
        List::Nil => {},
        List::Cons(_, rest) => named_goes_by_sameness(*rest, a, b),
    }
}

/// Registering a type that is not a placeholder continues the registry.
pub proof fn with_type_continues(s: Scopes, name: Id, ty: Type)
    requires
        !(ty is Param),
    ensures
        s.with_type(name, ty).continues(s),
{
}

/// Closing a scope that was opened on `before` gives back the scopes of
/// `before`; what was registered in between in the inner scope is gone.
pub proof fn closing_continues(before: Scopes, kind: ScopeKind, inner: Scopes)
    requires
        inner.continues(before.pushed(kind)),
    ensures
        inner.popped().continues(before),
        inner.popped().current == before.current,
        inner.popped().parents == before.parents,
{
    if before.wf() {
        assert(before.pushed(kind).wf());
    }
}

/// A name that the innermost scope binds to a placeholder resolves to that
/// placeholder, whatever the scopes around it hold.
pub proof fn innermost_placeholder_wins(s: Scopes, name: Id)
    requires
        placeholder_of(s.current.types, name) is Some,
    ensures
        s.resolved(name) == placeholder_of(s.current.types, name),
{
    first_placeholder_of_appended(named(s.current.types, name), named_in(s.parents, name));
}

/// While a registry is continued, a name that the innermost scope binds to
/// a placeholder keeps resolving to the placeholder in the same slot.
pub proof fn continuing_keeps_identity(before: Scopes, after: Scopes, name: Id)
    requires
        after.continues(before),
        placeholder_of(before.current.types, name) is Some,
    ensures
        same_slot(before.resolved(name), after.resolved(name)),
{
    innermost_placeholder_wins(before, name);
    innermost_placeholder_wins(after, name);
}

/// After an attempt to register a type that is not a placeholder, the
/// innermost scope binds the name to a type: the one registered, or the one
/// that was there before.
pub proof fn registering_declares(s: Scopes, name: Id, ty: Type)
    requires
        !(ty is Param),
    ensures
        s.type_outcome(name, ty) is Ok ==> declared_as(s.with_type(name, ty).current.types, name)
            is Some && type_alike(
            declared_as(s.with_type(name, ty).current.types, name)->Some_0,
            ty,
        ),
        s.type_outcome(name, ty) is Err ==> declared_as(s.current.types, name) is Some,
{
    if declared_as(s.current.types, name) is None {
        type_alike_is_reflexive(ty);
    }
}

/// A type parameter that was registered is bound to a placeholder in the
/// innermost scope.
pub proof fn with_param_binds(s: Scopes, param: TypeParam)
    requires
        s.param_outcome(param) is Ok,
    ensures
        placeholder_of(s.with_param(param).current.types, param.name) == Some(
            s.param_outcome(param)->Ok_0,
        ),
{
    match placeholder_of(s.current.types, param.name) {
        Some(ph) => {
            rebound_puts_first(
                s.current.types,
                param.name,
                Placeholder { span: param.span, name: param.name, slot: ph.slot },
            );
        },
        None => {},
    }
}

/// Whether every placeholder among the bindings has a slot at or above
/// `base`: none of them was handed out before the registry reached `base`.
pub open spec fn bindings_from(bindings: List<Binding>, base: u64) -> bool
    decreases bindings,
{
    match bindings {
        List::Nil => true,
        List::Cons(b, rest) => (b.ty matches Type::Param(p) ==> p.slot >= base) && bindings_from(
            *rest,
            base,
        ),
    }
}

/// Where every placeholder of a scope is from `base` on, so is the one that
/// a name is bound to.
pub proof fn placeholder_is_from(bindings: List<Binding>, name: Id, base: u64)
    requires
        bindings_from(bindings, base),
    ensures
        placeholder_of(bindings, name) matches Some(ph) ==> ph.slot >= base,
    decreases bindings,
{
    match bindings {
        List::Nil => {},
        List::Cons(_, rest) => placeholder_is_from(*rest, name, base),
    }
}

proof fn rebound_stays_from(bindings: List<Binding>, name: Id, ph: Placeholder, base: u64)
    requires
        bindings_from(bindings, base),
        ph.slot >= base,
    ensures
        bindings_from(rebound(bindings, name, ph), base),
    decreases bindings,
{
    match bindings {
        List::Nil => {},
        List::Cons(_, rest) => rebound_stays_from(*rest, name, ph, base),
    }
}

/// A scope whose placeholders are all from `base` on stays so when a type
/// parameter is registered in it, as long as the registry has reached
/// `base`: a new placeholder takes the next free slot, and one that is
/// registered again keeps its own.
pub proof fn with_param_stays_from(s: Scopes, param: TypeParam, base: u64)
    requires
        bindings_from(s.current.types, base),
        base <= s.next_slot,
    ensures
        bindings_from(s.with_param(param).current.types, base),
        s.param_outcome(param) matches Ok(ph) ==> ph.slot >= base,
{
    placeholder_is_from(s.current.types, param.name, base);
    match placeholder_of(s.current.types, param.name) {
        Some(ph) => {
            rebound_stays_from(
                s.current.types,
                param.name,
                Placeholder { span: param.span, name: param.name, slot: ph.slot },
                base,
            );
        },
        None => {},
    }
}

/// A placeholder that is from the registry's next free slot on is none that
/// a name resolved to before: in a well-formed registry every name resolves
/// to a placeholder below that slot.
pub proof fn fresh_placeholder_is_no_earlier_one(s: Scopes, name: Id, ph: Placeholder)
    requires
        s.wf(),
        ph.slot >= s.next_slot,
    ensures
        s.resolved(name) matches Some(earlier) ==> earlier.slot != ph.slot,
{
    resolved_is_handed_out(s, name);
}

proof fn declared_is_first_named(bindings: List<Binding>, name: Id)
    requires
        placeholder_of(bindings, name) is None,
        declared_as(bindings, name) is Some,
    ensures
        named(bindings, name) matches List::Cons(first, _) && *first == declared_as(
            bindings,
            name,
        )->Some_0,
    decreases bindings,
{
    match bindings {
        List::Nil => {},
        List::Cons(b, rest) => {
            if b.name.same(name) {
            } else {
                declared_is_first_named(*rest, name);
            }
        },
    }
}

/// A lookup finds what was declared: where the innermost scope binds a name
/// to a type and to no placeholder, that type is the first of the name's
/// candidates, before whatever the scopes around bind the name to.
pub proof fn declared_heads_the_candidates(s: Scopes, name: Id)
    requires
        placeholder_of(s.current.types, name) is None,
        declared_as(s.current.types, name) is Some,
    ensures
        s.candidates(name) matches List::Cons(first, _) && *first == declared_as(
            s.current.types,
            name,
        )->Some_0,
        s.resolved(name) == first_placeholder(named_in(s.parents, name)),
{
    declared_is_first_named(s.current.types, name);
    first_placeholder_of_appended(named(s.current.types, name), named_in(s.parents, name));
}

} // verus!
