//! Scripted sequences: consumed-once sources of outcome values that drive the
//! mock sinks.
//!
//! A script hands out one value per read, or reports exhaustion. Its whole
//! behaviour is captured by two spec functions — the value the next read
//! produces, and the script state left behind — so that the mocks' contracts can
//! speak about entire runs of reads.

use vstd::prelude::*;

verus! {

/// A consumed-once sequence of values.
///
/// `spec_next` is the value the next call to [`Script::next`] returns, and
/// `spec_rest` the state the script is left in afterwards; `next` is the one
/// executable operation, and its contract ties it to both.
pub trait Script: Sized {
    /// The type of value the script produces.
    type Elem;

    /// The value the next read produces, or `None` when the script is exhausted.
    spec fn spec_next(&self) -> Option<Self::Elem>;

    /// The script state after one read.
    spec fn spec_rest(&self) -> Self;

    /// Produce the next scripted value, or `None` when the script is exhausted.
    fn next(&mut self) -> (r: Option<Self::Elem>)
        ensures
            r == old(self).spec_next(),
            *final(self) == old(self).spec_rest(),
    ;

    /// Report whether the script is exhausted: whether the next read would
    /// produce nothing.
    fn is_exhausted(&self) -> (r: bool)
        ensures
            r == (self.spec_next() is None),
    ;
}

/// A script that is exhausted and stays so: it never produces a value and one
/// read leaves it unchanged.
pub open spec fn inert<S: Script>(s: S) -> bool {
    &&& s.spec_next() is None
    &&& s.spec_rest() == s
}

/// A finite script backed by a vector: the values are produced in order, then
/// the script is exhausted forever.
pub struct VecScript<T> {
    /// The scripted values, in the order they are produced.
    pub items: Vec<T>,
    /// How many values have been produced so far.
    pub pos: usize,
}

impl<T> VecScript<T> {
    /// A script producing the given values in order.
    pub fn new(items: Vec<T>) -> (r: Self)
        ensures
            r.items == items,
            r.pos == 0,
    {
        VecScript { items, pos: 0 }
    }
}

impl<T: Copy> VecScript<T> {
    /// A script that is exhausted from the first read on.
    pub fn empty() -> (r: Self)
        ensures
            r.items@ == Seq::<T>::empty(),
            r.pos == 0,
            inert(r),
    {
        VecScript { items: Vec::new(), pos: 0 }
    }
}

impl<T: Copy> Script for VecScript<T> {
    type Elem = T;

    open spec fn spec_next(&self) -> Option<T> {
        if self.pos < self.items@.len() {
            Some(self.items@[self.pos as int])
        } else {
            None
        }
    }

    open spec fn spec_rest(&self) -> Self {
        if self.pos < self.items@.len() {
            VecScript { items: self.items, pos: (self.pos + 1) as usize }
        } else {
            *self
        }
    }

    fn next(&mut self) -> (r: Option<T>) {
        if self.pos < self.items.len() {
            let v = self.items[self.pos];
            self.pos = self.pos + 1;
            Some(v)
        } else {
            None
        }
    }

    fn is_exhausted(&self) -> (r: bool) {
        self.pos >= self.items.len()
    }
}

/// An endless script that cycles through a vector of values. An empty vector
/// gives a script that is exhausted forever.
pub struct CycleScript<T> {
    /// The scripted values, produced in order and then again from the start.
    pub items: Vec<T>,
    /// The index of the value the next read produces.
    pub pos: usize,
}

impl<T> CycleScript<T> {
    /// A script cycling through the given values, starting at the first.
    pub fn new(items: Vec<T>) -> (r: Self)
        ensures
            r.items == items,
            r.pos == 0,
    {
        CycleScript { items, pos: 0 }
    }
}

impl<T: Copy> Script for CycleScript<T> {
    type Elem = T;

    open spec fn spec_next(&self) -> Option<T> {
        if self.pos < self.items@.len() {
            Some(self.items@[self.pos as int])
        } else {
            None
        }
    }

    open spec fn spec_rest(&self) -> Self {
        if self.pos < self.items@.len() {
            if self.pos + 1 == self.items@.len() {
                CycleScript { items: self.items, pos: 0 }
            } else {
                CycleScript { items: self.items, pos: (self.pos + 1) as usize }
            }
        } else {
            *self
        }
    }

    fn next(&mut self) -> (r: Option<T>) {
        if self.pos < self.items.len() {
            let v = self.items[self.pos];
            if self.pos + 1 == self.items.len() {
                self.pos = 0;
            } else {
                self.pos = self.pos + 1;
            }
            Some(v)
        } else {
            None
        }
    }

    fn is_exhausted(&self) -> (r: bool) {
        self.pos >= self.items.len()
    }
}

/// A script that cycles through a single value forever.
pub fn repeat_one<T: Copy>(value: T) -> (r: CycleScript<T>)
    ensures
        r.items@ =~= seq![value],
        r.pos == 0,
        r.spec_next() == Some(value),
        r.spec_rest() == r,
{
    let mut items: Vec<T> = Vec::new();
    items.push(value);
    CycleScript::new(items)
}

/// A script that produces nothing, ever.
pub struct EmptyScript<T> {
    /// Marks the element type the script would produce.
    pub marker: core::marker::PhantomData<T>,
}

impl<T> EmptyScript<T> {
    /// The empty script.
    pub fn new() -> (r: Self)
        ensures
            inert(r),
    {
        EmptyScript { marker: core::marker::PhantomData }
    }
}

impl<T> Script for EmptyScript<T> {
    type Elem = T;

    open spec fn spec_next(&self) -> Option<T> {
        None
    }

    open spec fn spec_rest(&self) -> Self {
        *self
    }

    fn next(&mut self) -> (r: Option<T>) {
        None
    }

    fn is_exhausted(&self) -> (r: bool) {
        true
    }
}

} // verus!
