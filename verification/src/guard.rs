//! The latch that lets one request per process through.
//!
//! A program may reach its request for a debugger many times, in a loop or
//! from several threads. Only the first request is served: the latch starts
//! open, the first request to test it closes it, and nothing opens it again.
//! The process keeps one latch behind a lock, so that requests test it one
//! after another; what each of them is told is decided here.

use vstd::prelude::*;

verus! {

/// What testing the latch does to it and what the caller is told:
/// the latch is closed afterwards, and the caller is the first one exactly
/// when it was open before.
pub open spec fn enter(held: bool) -> (bool, bool) {
    (true, !held)
}

/// What `calls` requests in a row are told by a latch that starts out closed
/// (`held`) or open.
pub open spec fn answers(held: bool, calls: nat) -> Seq<bool>
    decreases calls,
{
    if calls == 0 {
        Seq::empty()
    } else {
        seq![enter(held).1] + answers(enter(held).0, (calls - 1) as nat)
    }
}

/// The latch. It is open until the first request has tested it.
#[derive(Debug)]
pub struct EntryGuard {
    held: bool,
}

impl EntryGuard {
    /// Whether a request has been let through already.
    pub closed spec fn is_held(&self) -> bool {
        self.held
    }

    /// An open latch.
    pub fn new() -> (guard: EntryGuard)
        ensures
            !guard.is_held(),
    {
        EntryGuard { held: false }
    }

    /// Whether a request has been let through already.
    pub fn held(&self) -> (held: bool)
        ensures
            held == self.is_held(),
    {
        self.held
    }

    /// Tests the latch and closes it. Returns `true` to the first caller, who
    /// goes on, and `false` to every later one, who returns at once.
    pub fn try_enter(&mut self) -> (first: bool)
        ensures
            (final(self).is_held(), first) == enter(old(self).is_held()),
            first == !old(self).is_held(),
            final(self).is_held(),
    {
        let first = !self.held;
        self.held = true;
        first
    }
}

impl Default for EntryGuard {
    fn default() -> (guard: EntryGuard)
        ensures
            !guard.is_held(),
    {
        EntryGuard::new()
    }
}

/// Tests the latch and closes it. Returns whether a request had been let
/// through before this one: `false` to the first caller and `true` to every
/// later one.
pub fn already_entered(guard: &mut EntryGuard) -> (ret: bool)
    ensures
        (final(guard).is_held(), !ret) == enter(old(guard).is_held()),
        ret == old(guard).is_held(),
        final(guard).is_held(),
{
    !guard.try_enter()
}

/// However many requests test a closed latch, none of them is let through.
pub proof fn lemma_closed_latch_stays_closed(calls: nat)
    ensures
        answers(true, calls).len() == calls,
        forall|i: int| 0 <= i < calls ==> !(#[trigger] answers(true, calls)[i]),
    decreases calls,
{
    if calls > 0 {
        lemma_closed_latch_stays_closed((calls - 1) as nat);
    }
}

/// Of any number of requests that test a fresh latch one after another,
/// exactly one is let through, and it is the one that came first.
pub proof fn lemma_exactly_one_enters(calls: nat)
    ensures
        answers(false, calls).len() == calls,
        forall|i: int| 0 <= i < calls ==> (#[trigger] answers(false, calls)[i] <==> i == 0),
{
    if calls > 0 {
        lemma_closed_latch_stays_closed((calls - 1) as nat);
    }
}

} // verus!
