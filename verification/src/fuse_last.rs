//! A script adapter that, once the wrapped script is exhausted, keeps producing
//! the last value it ever produced, forever. A script that was empty from the
//! first read stays exhausted forever: there is nothing to latch onto.

use vstd::prelude::*;

use crate::script::Script;
use crate::script::VecScript;

verus! {

/// Extension trait that lets [`FuseLast`] be attached to a script in a
/// chain-like manner.
pub trait IteratorExt: Script {
    /// Wrap this script so that, after it is exhausted, every further read
    /// produces the last value it ever produced instead of exhaustion.
    fn fuse_last(self) -> (r: FuseLast<Self, Self::Elem>)
        ensures
            r.iter == self,
            r.last_item is None,
            !r.done,
    ;
}

impl<I: Script> IteratorExt for I {
    fn fuse_last(self) -> (r: FuseLast<I, I::Elem>) {
        FuseLast::new(self)
    }
}

/// A script that forever repeats the last value of the wrapped script once that
/// one is exhausted.
pub struct FuseLast<I, Item> {
    /// The wrapped script. It is read only while `done` is false.
    pub iter: I,
    /// The last value the wrapped script produced, if any.
    pub last_item: Option<Item>,
    /// Whether the wrapped script has reported exhaustion once.
    pub done: bool,
}

impl<I> FuseLast<I, I::Elem> where I: Script {
    /// Wrap a script so that it latches on its last value.
    pub fn new(iter: I) -> (r: Self)
        ensures
            r.iter == iter,
            r.last_item is None,
            !r.done,
    {
        FuseLast { iter, last_item: None, done: false }
    }
}

impl<I, Item> Script for FuseLast<I, Item> where I: Script<Elem = Item>, Item: Copy {
    type Elem = Item;

    open spec fn spec_next(&self) -> Option<Item> {
        if self.done {
            self.last_item
        } else {
            match self.iter.spec_next() {
                Some(v) => Some(v),
                None => self.last_item,
            }
        }
    }

    open spec fn spec_rest(&self) -> Self {
        if self.done {
            *self
        } else {
            match self.iter.spec_next() {
                Some(v) => (FuseLast {
                    iter: self.iter.spec_rest(),
                    last_item: Some(v),
                    done: false,
                }),
                None => (FuseLast {
                    iter: self.iter.spec_rest(),
                    last_item: self.last_item,
                    done: true,
                }),
            }
        }
    }

    fn next(&mut self) -> (r: Option<Item>) {
        if self.done {
            self.last_item
        } else {
            match self.iter.next() {
                Some(v) => {
                    self.last_item = Some(v);
                    Some(v)
                },
                None => {
                    self.done = true;
                    self.last_item
                },
            }
        }
    }

    fn is_exhausted(&self) -> (r: bool) {
        if self.done {
            self.last_item.is_none()
        } else if self.iter.is_exhausted() {
            self.last_item.is_none()
        } else {
            false
        }
    }
}

/// Law: once the wrapped script has been exhausted, the adapter is frozen — every
/// read produces the latched value (exhaustion, if nothing was ever produced) and
/// leaves the adapter unchanged, so the same holds of every later read too.
pub proof fn lemma_latched_forever<I, Item>(f: FuseLast<I, Item>) where
    I: Script<Elem = Item>,
    Item: Copy,

    requires
        f.done,
    ensures
        f.spec_next() == f.last_item,
        f.spec_rest() == f,
{
}

/// Law: wrapping a two-value script produces its two values in order and then
/// repeats the second one; after the read that first sees exhaustion the adapter
/// is frozen (see [`lemma_latched_forever`]), so the second value is produced
/// indefinitely.
pub proof fn lemma_fuse_last_pair<T: Copy>(f: FuseLast<VecScript<T>, T>)
    requires
        !f.done,
        f.last_item is None,
        f.iter.pos == 0,
        f.iter.items@.len() == 2,
    ensures
        f.spec_next() == Some(f.iter.items@[0]),
        f.spec_rest().spec_next() == Some(f.iter.items@[1]),
        f.spec_rest().spec_rest().spec_next() == Some(f.iter.items@[1]),
        f.spec_rest().spec_rest().spec_rest().done,
        f.spec_rest().spec_rest().spec_rest().last_item == Some(f.iter.items@[1]),
{
}

/// Law: wrapping a script that was empty from the start gives a script on which
/// every read reports exhaustion; after the first read the adapter is frozen
/// (see [`lemma_latched_forever`]), so exhaustion is reported indefinitely.
pub proof fn lemma_fuse_last_empty<T: Copy>(f: FuseLast<VecScript<T>, T>)
    requires
        !f.done,
        f.last_item is None,
        f.iter.items@.len() == 0,
    ensures
        f.spec_next() is None,
        f.spec_rest().spec_next() is None,
        f.spec_rest().done,
        f.spec_rest().last_item is None,
        f.spec_rest().spec_rest() == f.spec_rest(),
{
}

} // verus!
