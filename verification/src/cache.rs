//! A cache of prepared statements, each prepared at most once.
//!
//! The cache itself never waits and never talks to the store. A caller asks
//! with [`StatementCache::request`] and is told what to do; the caller who is
//! told to prepare reports back with [`StatementCache::complete`] or
//! [`StatementCache::release`]. Callers that run concurrently share the cache
//! behind a lock and take one such step at a time. Each step changes the slot
//! of one name as [`crate::slot`] says, so what is proved there of a slot
//! holds of every name in the cache.

use vstd::prelude::*;
use crate::name_map::NameMap;
use crate::slot::{Directive, Slot};

verus! {

/// The slots of all names. A name that was never asked for has a vacant slot.
pub struct StatementCache<H> {
    slots: NameMap<Slot<H>>,
}

/// Why a statement could not be had in one call.
#[derive(Debug)]
pub enum PrepareError<E> {
    /// Another caller is preparing the statement.
    Busy,
    /// Preparing the statement failed; holds the failure.
    Failed(E),
}

impl<H> View for StatementCache<H> {
    type V = Map<Seq<char>, Slot<H>>;

    /// The slot of every name.
    open spec fn view(&self) -> Map<Seq<char>, Slot<H>> {
        Map::total(|name: Seq<char>| self.slot(name))
    }
}

impl<H> StatementCache<H> {
    /// The slot of one name.
    pub closed spec fn slot(&self, name: Seq<char>) -> Slot<H> {
        if self.slots@.contains_key(name) {
            self.slots@[name]
        } else {
            Slot::Vacant
        }
    }

    /// A cache in which every slot is vacant.
    pub fn new() -> (cache: Self)
        ensures
            cache@ == Map::<Seq<char>, Slot<H>>::total(|name: Seq<char>| Slot::Vacant),
    {
        let cache = StatementCache { slots: NameMap::new() };
        assert(cache@ =~= Map::<Seq<char>, Slot<H>>::total(|name: Seq<char>| Slot::Vacant));
        cache
    }

    fn put(&mut self, name: &str, slot: Slot<H>)
        ensures
            final(self)@ == old(self)@.insert(name@, slot),
    {
        self.slots.put(name, slot);
        assert(self@ =~= old(self)@.insert(name@, slot));
    }

    /// What a caller who asks for `name` now would be told.
    pub fn peek(&self, name: &str) -> (directive: Directive)
        ensures
            directive == self@[name@].directive(),
    {
        match self.slots.get(name) {
            Some(Slot::Preparing) => Directive::Wait,
            Some(Slot::Ready(_)) => Directive::Use,
            _ => Directive::Compile,
        }
    }

    /// The statement under `name`, if it is there.
    pub fn get(&self, name: &str) -> (found: Option<&H>)
        ensures
            found == match self@[name@] {
                Slot::Ready(handle) => Some(&handle),
                _ => None,
            },
    {
        match self.slots.get(name) {
            Some(Slot::Ready(handle)) => Some(handle),
            _ => None,
        }
    }

    /// Asks for the statement under `name`. The caller of a vacant slot is
    /// told to prepare it, and the slot is that caller's until it reports back;
    /// while it is, every other caller is told to wait.
    pub fn request(&mut self, name: &str) -> (directive: Directive)
        ensures
            directive == old(self)@[name@].directive(),
            final(self)@ == old(self)@.insert(name@, old(self)@[name@].requested()),
    {
        let directive = self.peek(name);
        match directive {
            Directive::Compile => self.put(name, Slot::Preparing),
            _ => {
                assert(self@ =~= old(self)@.insert(name@, old(self)@[name@].requested()));
            },
        }
        directive
    }

    /// Hands in the statement that the caller was told to prepare. It is kept
    /// if the slot is still under preparation, and dropped otherwise; the
    /// answer says which.
    pub fn complete(&mut self, name: &str, handle: H) -> (accepted: bool)
        ensures
            accepted == (old(self)@[name@] is Preparing),
            final(self)@ == old(self)@.insert(name@, old(self)@[name@].completed(handle)),
    {
        match self.peek(name) {
            Directive::Wait => {
                self.put(name, Slot::Ready(handle));
                true
            },
            _ => {
                assert(self@ =~= old(self)@.insert(name@, old(self)@[name@].completed(handle)));
                false
            },
        }
    }

    /// Gives up the preparation that the caller was told to make, because it
    /// failed or because the caller will not end it. The slot is vacant again
    /// and the next caller who asks is told to prepare. A slot that is not
    /// under preparation stays as it is; the answer says which.
    pub fn release(&mut self, name: &str) -> (released: bool)
        ensures
            released == (old(self)@[name@] is Preparing),
            final(self)@ == old(self)@.insert(name@, old(self)@[name@].released()),
    {
        match self.peek(name) {
            Directive::Wait => {
                self.put(name, Slot::Vacant);
                true
            },
            _ => {
                assert(self@ =~= old(self)@.insert(name@, old(self)@[name@].released()));
                false
            },
        }
    }

    /// The statement under `name`, prepared by `compile` if it is not there.
    ///
    /// `compile` runs only if the slot is vacant. What it returns is kept if it
    /// is a statement; a failure is handed on and leaves the slot vacant, so
    /// that a later call prepares again. While another caller holds the slot
    /// the answer is [`PrepareError::Busy`], and `compile` does not run.
    pub fn get_or_prepare<E, F: FnOnce() -> Result<H, E>>(
        &mut self,
        name: &str,
        compile: F,
    ) -> (outcome: Result<&H, PrepareError<E>>)
        requires
            compile.requires(()),
        ensures
            match old(self)@[name@] {
                Slot::Ready(handle) => {
                    &&& outcome == Ok::<&H, PrepareError<E>>(&handle)
                    &&& final(self)@ == old(self)@
                },
                Slot::Preparing => {
                    &&& outcome == Err::<&H, PrepareError<E>>(PrepareError::Busy)
                    &&& final(self)@ == old(self)@
                },
                Slot::Vacant => match outcome {
                    Ok(handle) => {
                        &&& compile.ensures((), Ok(*handle))
                        &&& final(self)@ == old(self)@.insert(name@, Slot::Ready(*handle))
                    },
                    Err(PrepareError::Failed(failure)) => {
                        &&& compile.ensures((), Err(failure))
                        &&& final(self)@ == old(self)@
                    },
                    Err(PrepareError::Busy) => false,
                },
            },
    {
        match self.request(name) {
            Directive::Use => {
                assert(self@ =~= old(self)@);
            },
            Directive::Wait => {
                assert(self@ =~= old(self)@);
                return Err(PrepareError::Busy);
            },
            Directive::Compile => match compile() {
                Ok(handle) => {
                    self.complete(name, handle);
                    assert(self@ =~= old(self)@.insert(name@, Slot::Ready(handle)));
                },
                Err(failure) => {
                    self.release(name);
                    assert(self@ =~= old(self)@);
                    return Err(PrepareError::Failed(failure));
                },
            },
        }
        Ok(self.get(name).unwrap())
    }
}

} // verus!
