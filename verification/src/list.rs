//! An owned, singly linked sequence.
//!
//! Trees of this crate hold their children in `List`s. Unlike a vector, a list
//! is an algebraic value: two lists are equal exactly when they hold equal
//! items in the same order.

use vstd::prelude::*;

verus! {

/// A finite sequence, first item outermost.
#[derive(Debug, PartialEq, Eq)]
pub enum List<T> {
    Nil,
    Cons(Box<T>, Box<List<T>>),
}

impl<T> List<T> {
    /// The items, first to last.
    pub open spec fn view(self) -> Seq<T>
        decreases self,
    {
        match self {
            List::Nil => Seq::empty(),
            List::Cons(head, tail) => seq![*head] + tail.view(),
        }
    }

    /// The number of items.
    pub open spec fn len(self) -> nat
        decreases self,
    {
        match self {
            List::Nil => 0,
            List::Cons(_, tail) => 1 + tail.len(),
        }
    }

    /// This list with `item` added after its last item.
    pub open spec fn pushed(self, item: T) -> List<T>
        decreases self,
    {
        match self {
            List::Nil => List::Cons(Box::new(item), Box::new(List::Nil)),
            List::Cons(head, tail) => List::Cons(head, Box::new(tail.pushed(item))),
        }
    }

    /// The items of this list followed by those of `other`.
    pub open spec fn appended(self, other: List<T>) -> List<T>
        decreases self,
    {
        match self {
            List::Nil => other,
            List::Cons(head, tail) => List::Cons(head, Box::new(tail.appended(other))),
        }
    }

    /// Whether `self` and `other` hold the same number of items.
    pub open spec fn same_len<U>(self, other: List<U>) -> bool
        decreases self,
    {
        match (self, other) {
            (List::Nil, List::Nil) => true,
            (List::Cons(_, t1), List::Cons(_, t2)) => t1.same_len(*t2),
            _ => false,
        }
    }

    /// The empty list.
    pub fn new() -> (l: List<T>)
        ensures
            l == List::<T>::Nil,
    {
        List::Nil
    }

    /// Whether the list holds no item.
    pub fn is_empty(&self) -> (b: bool)
        ensures
            b == (*self == List::<T>::Nil),
    {
        match self {
            List::Nil => true,
            List::Cons(_, _) => false,
        }
    }

    /// Puts `item` in front of `tail`.
    pub fn cons(item: T, tail: List<T>) -> (l: List<T>)
        ensures
            l == List::Cons(Box::new(item), Box::new(tail)),
    {
        List::Cons(Box::new(item), Box::new(tail))
    }

    /// Adds `item` after the last item.
    pub fn push(&mut self, item: T)
        ensures
            *final(self) == old(self).pushed(item),
        decreases *old(self),
    {
        match self {
            List::Nil => {
                *self = List::Cons(Box::new(item), Box::new(List::Nil));
            },
            List::Cons(_, tail) => {
                tail.push(item);
            },
        }
    }

    /// Moves the items of `other` behind those of this list.
    pub fn append(&mut self, other: List<T>)
        ensures
            *final(self) == old(self).appended(other),
        decreases *old(self),
    {
        match self {
            List::Nil => {
                *self = other;
            },
            List::Cons(_, tail) => {
                tail.append(other);
            },
        }
    }

    /// Compares the lengths of two lists without counting either.
    pub fn has_same_len<U>(&self, other: &List<U>) -> (b: bool)
        ensures
            b == self.same_len(*other),
        decreases *self,
    {
        match (self, other) {
            (List::Nil, List::Nil) => true,
            (List::Cons(_, t1), List::Cons(_, t2)) => t1.has_same_len(t2),
            _ => false,
        }
    }

    /// Builds the list that holds the items of `items` in their order.
    pub fn from_vec(items: Vec<T>) -> (l: List<T>)
        ensures
            l@ == items@,
    {
        let mut items = items;
        let mut out: List<T> = List::Nil;
        let ghost all = items@;
        while items.len() > 0
            invariant
                all == items@ + out@,
            decreases items.len(),
        {
            let ghost before = items@;
            let last = items.pop().unwrap();
            out = List::Cons(Box::new(last), Box::new(out));
            assert(before == items@ + seq![last]);
            assert(all == items@ + out@);
        }
        assert(all == out@);
        out
    }

    /// Moves the items into a vector, in their order.
    pub fn into_vec(self) -> (v: Vec<T>)
        ensures
            v@ == self@,
    {
        let mut out: Vec<T> = Vec::new();
        let mut rest = self;
        loop
            invariant
                self@ == out@ + rest@,
            ensures
                self@ == out@,
            decreases rest,
        {
            match rest {
                List::Nil => {
                    break;
                },
                List::Cons(head, tail) => {
                    out.push(*head);
                    rest = *tail;
                    assert(self@ == out@ + rest@);
                },
            }
        }
        out
    }
}

/// Pushing an item puts it behind the items that were there.
pub proof fn pushed_is_last<T>(l: List<T>, item: T)
    ensures
        l.pushed(item)@ == l@.push(item),
    decreases l,
{
    match l {
        List::Nil => {
            assert(l.pushed(item)@ =~= l@.push(item));
        },
        List::Cons(head, tail) => {
            pushed_is_last(*tail, item);
            assert(l.pushed(item)@ =~= l@.push(item));
        },
    }
}

/// Two lists have the same length exactly when they hold the same number of
/// items.
pub proof fn same_len_is_len_eq<T, U>(a: List<T>, b: List<U>)
    ensures
        a.same_len(b) <==> a.len() == b.len(),
        a.len() == a@.len(),
    decreases a,
{
    match (a, b) {
        (List::Cons(_, t1), List::Cons(_, t2)) => {
            same_len_is_len_eq(*t1, *t2);
        },
        (List::Cons(_, t1), List::Nil) => {
            same_len_is_len_eq::<T, U>(*t1, List::Nil);
        },
        _ => {},
    }
}

} // verus!
