//! A family of handles as a model, and what holds of every family.
//!
//! The handles cloned from one origin share one flag. The model keeps what
//! the flag holds and, handle by handle, whether the slot is still filled; an
//! event is one operation on one handle. It takes a pre-check to read what the
//! latest `close` before it has written.

use vstd::prelude::*;

use crate::session::Closed;
use crate::session::SessionView;

verus! {

/// The operations of a handle. `Send` stands for `text`, `binary`, `ping`
/// and `pong` alike.
pub enum Call {
    Send,
    Close,
    Clone,
}

/// One operation on one handle of a family.
pub struct Event {
    /// The handle, by its place in the family.
    pub handle: int,
    pub call: Call,
    /// Whether the channel takes the frame, should the operation come to its
    /// push.
    pub pushed: bool,
}

/// All handles that stem from one origin.
pub struct Family {
    /// What the shared flag holds.
    pub raised: bool,
    /// For each handle, whether its slot holds the endpoint. A handle that
    /// `close` has consumed stays in the family with an empty slot.
    pub open: Seq<bool>,
}

impl Family {
    /// The family of a new session: one handle, its slot filled, the flag
    /// down.
    pub open spec fn founded() -> Family {
        Family { raised: false, open: seq![true] }
    }

    pub open spec fn has(self, handle: int) -> bool {
        0 <= handle < self.open.len()
    }

    /// Whether a `Send` or a `Close` on `handle` comes to its push: the slot
    /// must be filled, and the pre-check must find the flag down.
    pub open spec fn admits(self, handle: int) -> bool {
        self.has(handle) && self.open[handle] && !self.raised
    }

    /// What a `Send` or a `Close` answers.
    pub open spec fn answer(self, event: Event) -> Result<(), Closed> {
        if self.admits(event.handle) && event.pushed {
            Ok(())
        } else {
            Err(Closed)
        }
    }

    /// The family after `event`. A `Send` leaves its handle as the pre-check
    /// left it; a `Close` consumes its handle and, if admitted, raises the
    /// flag; a `Clone` adds a handle like the one it was made from. An event
    /// on a handle that the family does not have changes nothing.
    pub open spec fn after(self, event: Event) -> Family {
        if !self.has(event.handle) {
            self
        } else {
            match event.call {
                Call::Send => Family {
                    raised: self.raised,
                    open: self.open.update(event.handle, self.admits(event.handle)),
                },
                Call::Close => Family {
                    raised: self.raised || self.admits(event.handle),
                    open: self.open.update(event.handle, false),
                },
                Call::Clone => Family {
                    raised: self.raised,
                    open: self.open.push(self.open[event.handle]),
                },
            }
        }
    }

    /// Whether the family is as it was founded: the flag down, every slot
    /// filled.
    pub open spec fn intact(self) -> bool {
        !self.raised && forall|handle: int|
            0 <= handle < self.open.len() ==> #[trigger] self.open[handle]
    }

    /// The family after `events`, one after the other.
    pub open spec fn after_all(self, events: Seq<Event>) -> Family
        decreases events.len(),
    {
        if events.len() == 0 {
            self
        } else {
            self.after(events.first()).after_all(events.drop_first())
        }
    }
}

/// The model's handle is the view of a real one, reduced to whether its slot
/// is filled: a pre-check leaves the slot filled exactly if it was filled and
/// the flag read down, as `admits` has it, and it keeps the flag.
pub proof fn lemma_model_follows_check(handle: SessionView, closed: bool)
    ensures
        handle.checked(closed).is_open() <==> handle.is_open() && !closed,
        handle.checked(closed).flag == handle.flag,
{
}

/// Once raised, the flag stays raised, whatever the handles do.
pub proof fn lemma_flag_stays_raised(family: Family, events: Seq<Event>)
    requires
        family.raised,
    ensures
        family.after_all(events).raised,
    decreases events.len(),
{
    if events.len() > 0 {
        lemma_flag_stays_raised(family.after(events.first()), events.drop_first());
    }
}

/// Once empty, a slot stays empty, whatever the handles do.
pub proof fn lemma_slot_stays_empty(family: Family, events: Seq<Event>, handle: int)
    requires
        family.has(handle),
        !family.open[handle],
    ensures
        family.after_all(events).has(handle),
        !family.after_all(events).open[handle],
    decreases events.len(),
{
    if events.len() > 0 {
        lemma_slot_stays_empty(family.after(events.first()), events.drop_first(), handle);
    }
}

/// After a `close` that was admitted (one that succeeded is such a one), no
/// handle of the family comes to a push again: whatever happens in between,
/// every later `Send` or `Close`, on whichever clone, answers `Closed`.
pub proof fn lemma_close_closes_family(
    family: Family,
    close: Event,
    between: Seq<Event>,
    later: Event,
)
    requires
        close.call is Close,
        family.admits(close.handle),
    ensures
        !family.after(close).after_all(between).admits(later.handle),
        family.after(close).after_all(between).answer(later) == Err::<(), Closed>(Closed),
{
    lemma_flag_stays_raised(family.after(close), between);
}

/// A new session's family is intact, and its one handle comes to its push.
pub proof fn lemma_founded_is_intact()
    ensures
        Family::founded().intact(),
        Family::founded().admits(0),
{
}

/// As long as no handle is closed, the family stays intact: however the
/// clones take turns, each `Send` of each of them comes to its push.
pub proof fn lemma_unclosed_family_admits(family: Family, events: Seq<Event>, handle: int)
    requires
        family.intact(),
        forall|k: int| 0 <= k < events.len() ==> !((#[trigger] events[k]).call is Close),
    ensures
        family.after_all(events).intact(),
        family.after_all(events).has(handle) ==> family.after_all(events).admits(handle),
    decreases events.len(),
{
    if events.len() > 0 {
        let rest = events.drop_first();
        assert(!(events[0].call is Close));
        assert forall|k: int| 0 <= k < rest.len() implies !((#[trigger] rest[k]).call is Close) by {
            assert(rest[k] == events[k + 1]);
        }
        lemma_unclosed_family_admits(family.after(events.first()), rest, handle);
    }
}

/// Events that follow one another can be taken in two runs.
pub proof fn lemma_after_all_splits(family: Family, first: Seq<Event>, rest: Seq<Event>)
    ensures
        family.after_all(first + rest) == family.after_all(first).after_all(rest),
    decreases first.len(),
{
    if first.len() == 0 {
        assert(first + rest =~= rest);
    } else {
        assert((first + rest).first() == first.first());
        assert((first + rest).drop_first() =~= first.drop_first() + rest);
        lemma_after_all_splits(family.after(first.first()), first.drop_first(), rest);
    }
}

/// In the whole history of a family at most one `close` is admitted, so at
/// most one close frame is ever due: if the `close` at place `i` comes to its
/// push, the one at a later place `j` does not.
pub proof fn lemma_one_close_at_most(family: Family, events: Seq<Event>, i: int, j: int)
    requires
        0 <= i < j < events.len(),
        events[i].call is Close,
        events[j].call is Close,
        family.after_all(events.take(i)).admits(events[i].handle),
    ensures
        !family.after_all(events.take(j)).admits(events[j].handle),
{
    let before = events.take(i);
    let between = events.subrange(i + 1, j);
    assert(events.take(j) =~= before + seq![events[i]] + between);
    lemma_after_all_splits(family, before + seq![events[i]], between);
    lemma_after_all_splits(family, before, seq![events[i]]);
    assert(family.after_all(before).after_all(seq![events[i]]) == family.after_all(before).after(
        events[i],
    )) by {
        reveal_with_fuel(Family::after_all, 2);
    }
    lemma_close_closes_family(family.after_all(before), events[i], between, events[j]);
}

/// A handle that was closed is spent, admitted or not: whatever happens in
/// between, a later `Send` or `Close` on it answers `Closed`.
pub proof fn lemma_closed_handle_is_spent(
    family: Family,
    close: Event,
    between: Seq<Event>,
    later: Event,
)
    requires
        family.has(close.handle),
        close.call is Close,
        later.handle == close.handle,
    ensures
        !family.after(close).after_all(between).admits(later.handle),
        family.after(close).after_all(between).answer(later) == Err::<(), Closed>(Closed),
{
    lemma_slot_stays_empty(family.after(close), between, close.handle);
}

} // verus!
