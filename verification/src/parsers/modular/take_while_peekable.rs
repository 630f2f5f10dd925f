//! A slice read from the front with one item of lookahead, and the adaptor
//! that takes items from it while a predicate holds.
//!
//! `take_while` of the standard library consumes the first item that fails the
//! predicate. A component ends at a `.` that the parser must still find, so the
//! adaptor here only looks at that item and leaves it in place.

use vstd::prelude::*;

verus! {

/// A slice read from the front, one item at a time.
#[derive(Debug)]
pub struct PeekableSlice<'a, T> {
    items: &'a [T],
    position: usize,
}

impl<'a, T> Clone for PeekableSlice<'a, T> {
    /// A second reader at the same place; reading from one leaves the other
    /// where it is.
    fn clone(&self) -> (copy: Self)
        ensures
            copy == *self,
    {
        proof {
            use_type_invariant(self);
        }
        PeekableSlice { items: self.items, position: self.position }
    }
}

impl<'a, T> PeekableSlice<'a, T> {
    /// The position never leaves the slice.
    #[verifier::type_invariant]
    spec fn within(self) -> bool {
        self.position <= self.items@.len()
    }

    /// All the items, read or not.
    pub closed spec fn source(&self) -> Seq<T> {
        self.items@
    }

    /// How many items have been read.
    pub closed spec fn position(&self) -> nat {
        self.position as nat
    }

    /// A reader at the front of `items`.
    pub fn new(items: &'a [T]) -> (reader: Self)
        ensures
            reader.source() == items@,
            reader.position() == 0,
    {
        PeekableSlice { items, position: 0 }
    }

    /// The next item, which stays in place.
    pub fn peek(&self) -> (item: Option<&'a T>)
        ensures
            match item {
                Some(item) => self.position() < self.source().len() && *item
                    == self.source()[self.position() as int],
                None => self.position() == self.source().len(),
            },
    {
        proof {
            use_type_invariant(self);
        }
        if self.position < self.items.len() {
            Some(&self.items[self.position])
        } else {
            None
        }
    }

    /// Takes the next item.
    pub fn next(&mut self) -> (item: Option<&'a T>)
        ensures
            final(self).source() == old(self).source(),
            final(self).position() <= final(self).source().len(),
            match item {
                Some(item) => old(self).position() < old(self).source().len() && *item == old(
                    self,
                ).source()[old(self).position() as int] && final(self).position() == old(self).position()
                    + 1,
                None => old(self).position() >= old(self).source().len() && final(self).position()
                    == old(self).position(),
            },
    {
        proof {
            use_type_invariant(&*self);
        }
        if self.position < self.items.len() {
            let item = &self.items[self.position];
            self.position += 1;
            Some(item)
        } else {
            None
        }
    }
}

impl<'a, T> PeekableSlice<'a, T> {
    /// Takes the next item if `pred` holds of it, and leaves it in place if
    /// not.
    pub fn next_if<P: FnOnce(&T) -> bool>(&mut self, pred: P) -> (item: Option<&'a T>)
        requires
            old(self).position() < old(self).source().len() ==> call_requires(
                pred,
                (&old(self).source()[old(self).position() as int],),
            ),
        ensures
            final(self).source() == old(self).source(),
            final(self).position() <= final(self).source().len(),
            match item {
                Some(item) => {
                    &&& old(self).position() < old(self).source().len()
                    &&& *item == old(self).source()[old(self).position() as int]
                    &&& call_ensures(pred, (item,), true)
                    &&& final(self).position() == old(self).position() + 1
                },
                None => {
                    &&& final(self).position() == old(self).position()
                    &&& old(self).position() < old(self).source().len() ==> call_ensures(
                        pred,
                        (&old(self).source()[old(self).position() as int],),
                        false,
                    )
                },
            },
    {
        match self.peek() {
            Some(item) => {
                if pred(item) {
                    self.next()
                } else {
                    None
                }
            },
            None => None,
        }
    }
}

/// The items of a reader for as long as a predicate holds of them.
pub struct TakeWhilePeekableImpl<'peekable, 'a, T, P> {
    /// The reader that the items are taken from.
    pub iter: &'peekable mut PeekableSlice<'a, T>,
    /// The predicate that decides which items are taken.
    pub pred: P,
}

impl<'peekable, 'a, T, P: Fn(&T) -> bool> TakeWhilePeekableImpl<'peekable, 'a, T, P> {
    /// Takes the next item if the predicate holds of it, and leaves it in
    /// place if not.
    pub fn next(&mut self) -> (item: Option<&'a T>)
        requires
            forall|item: &T| call_requires(old(self).pred, (item,)),
        ensures
            final(self).pred == old(self).pred,
            *final(final(self).iter) == *final(old(self).iter),
            final(self).iter.source() == old(self).iter.source(),
            final(self).iter.position() <= final(self).iter.source().len(),
            match item {
                Some(item) => {
                    &&& old(self).iter.position() < old(self).iter.source().len()
                    &&& *item == old(self).iter.source()[old(self).iter.position() as int]
                    &&& call_ensures(old(self).pred, (item,), true)
                    &&& final(self).iter.position() == old(self).iter.position() + 1
                },
                None => {
                    &&& final(self).iter.position() == old(self).iter.position()
                    &&& old(self).iter.position() < old(self).iter.source().len()
                        ==> call_ensures(
                        old(self).pred,
                        (&old(self).iter.source()[old(self).iter.position() as int],),
                        false,
                    )
                },
            },
    {
        match self.iter.peek() {
            Some(item) => {
                if (self.pred)(item) {
                    self.iter.next()
                } else {
                    None
                }
            },
            None => None,
        }
    }
}

/// Readers that can hand out their items for as long as a predicate holds.
pub trait TakeWhilePeekable<'peekable, 'a, T>: Sized {
    /// The reader behind `self`.
    spec fn as_reader(&self) -> PeekableSlice<'a, T>;

    /// An adaptor that takes items from `self` while `pred` holds of them. The
    /// first item of which it does not hold stays in place.
    fn take_while_peekable<P>(&'peekable mut self, pred: P) -> (taker: TakeWhilePeekableImpl<
        'peekable,
        'a,
        T,
        P,
    >) where P: Fn(&T) -> bool
        ensures
            taker.pred == pred,
            *taker.iter == old(self).as_reader(),
            *final(taker.iter) == final(self).as_reader(),
    ;
}

impl<'peekable, 'a, T> TakeWhilePeekable<'peekable, 'a, T> for PeekableSlice<'a, T> {
    open spec fn as_reader(&self) -> PeekableSlice<'a, T> {
        *self
    }

    fn take_while_peekable<P>(&'peekable mut self, pred: P) -> (taker: TakeWhilePeekableImpl<
        'peekable,
        'a,
        T,
        P,
    >) where P: Fn(&T) -> bool {
        TakeWhilePeekableImpl { iter: self, pred }
    }
}

} // verus!
