//! The life of one cached statement: from nothing, through one caller's
//! preparation, to a statement that every caller shares.
//!
//! Callers run concurrently, but each of their steps on a slot is taken alone.
//! A run of the cache is therefore a sequence of events on the slot, and what
//! holds of every sequence holds of every interleaving of callers.

use vstd::prelude::*;

verus! {

/// What the cache holds under one name.
#[derive(Debug)]
pub enum Slot<H> {
    /// Nothing, and nobody is preparing it.
    Vacant,
    /// Nothing yet: one caller is preparing it.
    Preparing,
    /// The prepared statement.
    Ready(H),
}

/// What a caller who asks for a statement is told to do.
#[derive(Clone, Copy, PartialEq, Eq, Structural, Debug)]
pub enum Directive {
    /// Prepare the statement, then report how it went.
    Compile,
    /// Another caller is preparing it: wait until that has ended, then ask again.
    Wait,
    /// The statement is there: use it.
    Use,
}

/// One step that a caller takes on a slot.
pub ghost enum Event<H> {
    /// A caller asks for the statement.
    Request,
    /// The preparing caller hands in the statement.
    Complete(H),
    /// The preparing caller gives up: preparation failed, or the caller was cancelled.
    Release,
}

impl<H> Slot<H> {
    /// What a caller who asks now is told.
    pub open spec fn directive(self) -> Directive {
        match self {
            Slot::Vacant => Directive::Compile,
            Slot::Preparing => Directive::Wait,
            Slot::Ready(_) => Directive::Use,
        }
    }

    /// The slot after a caller has asked: a vacant slot is claimed by that caller.
    pub open spec fn requested(self) -> Slot<H> {
        match self {
            Slot::Vacant => Slot::Preparing,
            other => other,
        }
    }

    /// The slot after a statement was handed in. Only a slot under preparation takes it.
    pub open spec fn completed(self, handle: H) -> Slot<H> {
        match self {
            Slot::Preparing => Slot::Ready(handle),
            other => other,
        }
    }

    /// The slot after the preparing caller gave up: it is free for the next caller.
    pub open spec fn released(self) -> Slot<H> {
        match self {
            Slot::Preparing => Slot::Vacant,
            other => other,
        }
    }

    /// The slot after one event.
    pub open spec fn after(self, event: Event<H>) -> Slot<H> {
        match event {
            Event::Request => self.requested(),
            Event::Complete(handle) => self.completed(handle),
            Event::Release => self.released(),
        }
    }

    /// The slot after a sequence of events, taken in order.
    pub open spec fn after_all(self, events: Seq<Event<H>>) -> Slot<H>
        decreases events.len(),
    {
        if events.len() == 0 {
            self
        } else {
            self.after(events.first()).after_all(events.drop_first())
        }
    }

    /// How many callers are told to prepare the statement during a sequence of events.
    pub open spec fn compiles(self, events: Seq<Event<H>>) -> nat
        decreases events.len(),
    {
        if events.len() == 0 {
            0
        } else {
            let told: nat = if events.first() is Request && self is Vacant {
                1
            } else {
                0
            };
            told + self.after(events.first()).compiles(events.drop_first())
        }
    }

    /// How many preparations are given up during a sequence of events.
    pub open spec fn failures(self, events: Seq<Event<H>>) -> nat
        decreases events.len(),
    {
        if events.len() == 0 {
            0
        } else {
            let given_up: nat = if events.first() is Release && self is Preparing {
                1
            } else {
                0
            };
            given_up + self.after(events.first()).failures(events.drop_first())
        }
    }

    /// 1 for a slot that is claimed or filled, 0 for a vacant one.
    pub open spec fn taken(self) -> nat {
        if self is Vacant {
            0
        } else {
            1
        }
    }
}

/// Whether a sequence of events holds a request.
pub open spec fn has_request<H>(events: Seq<Event<H>>) -> bool {
    exists|i: int| 0 <= i < events.len() && events[i] is Request
}

/// Whether no preparation is given up in a sequence of events.
pub open spec fn none_released<H>(events: Seq<Event<H>>) -> bool {
    forall|i: int| 0 <= i < events.len() ==> !(events[i] is Release)
}

/// Every preparation that was started has either been given up or still
/// stands for the slot's claim or content: none is started beside another.
pub proof fn compiles_are_accounted<H>(slot: Slot<H>, events: Seq<Event<H>>)
    ensures
        slot.taken() + slot.compiles(events) == slot.failures(events) + slot.after_all(
            events,
        ).taken(),
    decreases events.len(),
{
    if events.len() > 0 {
        compiles_are_accounted(slot.after(events.first()), events.drop_first());
    }
}

/// Where no preparation fails, the statement is prepared exactly once, however
/// many callers ask and in whatever order their steps fall: once if the slot
/// was vacant and somebody asked, and never otherwise.
pub proof fn compiled_exactly_once<H>(slot: Slot<H>, events: Seq<Event<H>>)
    requires
        none_released(events),
    ensures
        slot.failures(events) == 0,
        slot.compiles(events) == (if slot is Vacant && has_request(events) {
            1nat
        } else {
            0nat
        }),
    decreases events.len(),
{
    if events.len() > 0 {
        let rest = events.drop_first();
        assert forall|i: int| 0 <= i < rest.len() implies !(rest[i] is Release) by {
            assert(rest[i] == events[i + 1]);
        }
        compiled_exactly_once(slot.after(events.first()), rest);
        if has_request(rest) {
            let i = choose|i: int| 0 <= i < rest.len() && rest[i] is Request;
            assert(events[i + 1] is Request);
        }
        if has_request(events) && !(events.first() is Request) {
            let i = choose|i: int| 0 <= i < events.len() && events[i] is Request;
            assert(rest[i - 1] is Request);
        }
        if events.first() is Request {
            assert(events[0] is Request);
        }
    }
}

/// A statement that is there stays there: whatever happens afterwards, every
/// caller finds the same one.
pub proof fn ready_is_final<H>(handle: H, events: Seq<Event<H>>)
    ensures
        Slot::Ready(handle).after_all(events) == Slot::Ready(handle),
        Slot::Ready(handle).compiles(events) == 0,
    decreases events.len(),
{
    if events.len() > 0 {
        ready_is_final(handle, events.drop_first());
    }
}

/// The slot after two sequences of events, one after the other.
pub proof fn after_all_in_two_parts<H>(slot: Slot<H>, first: Seq<Event<H>>, second: Seq<Event<H>>)
    ensures
        slot.after_all(first + second) == slot.after_all(first).after_all(second),
    decreases first.len(),
{
    if first.len() == 0 {
        assert(first + second =~= second);
    } else {
        assert((first + second).first() == first.first());
        assert((first + second).drop_first() =~= first.drop_first() + second);
        after_all_in_two_parts(slot.after(first.first()), first.drop_first(), second);
    }
}

/// All callers find the same statement: if the statement is there at one
/// moment of a run, then at every later moment the same statement is there,
/// whatever happened in between.
pub proof fn one_handle_for_all<H>(slot: Slot<H>, events: Seq<Event<H>>, early: int, late: int)
    requires
        0 <= early <= late <= events.len(),
        slot.after_all(events.take(early)) is Ready,
    ensures
        slot.after_all(events.take(late)) == slot.after_all(events.take(early)),
{
    let before = events.take(early);
    let between = events.subrange(early, late);
    assert(events.take(late) =~= before + between);
    after_all_in_two_parts(slot, before, between);
    ready_is_final(slot.after_all(before)->Ready_0, between);
}

/// The statement that is there is one that a caller handed in: the cache
/// makes up none.
pub proof fn ready_handle_was_handed_in<H>(slot: Slot<H>, events: Seq<Event<H>>)
    requires
        !(slot is Ready),
        slot.after_all(events) is Ready,
    ensures
        exists|i: int|
            0 <= i < events.len() && events[i] == Event::Complete(
                slot.after_all(events)->Ready_0,
            ),
    decreases events.len(),
{
    let next = slot.after(events.first());
    let rest = events.drop_first();
    match next {
        Slot::Ready(handle) => {
            ready_is_final(handle, rest);
            assert(events[0] == Event::Complete(handle));
        },
        _ => {
            ready_handle_was_handed_in(next, rest);
            let i = choose|i: int|
                0 <= i < rest.len() && rest[i] == Event::Complete(next.after_all(rest)->Ready_0);
            assert(events[i + 1] == rest[i]);
        },
    }
}

/// A failed preparation does not poison the slot: the next caller who asks is
/// told to prepare, and the statement that this caller hands in is kept.
pub proof fn failure_is_forgotten<H>(handle: H)
    ensures
        Slot::<H>::Preparing.released().directive() == Directive::Compile,
        Slot::<H>::Preparing.released().requested().completed(handle) == Slot::Ready(handle),
{
}

} // verus!
