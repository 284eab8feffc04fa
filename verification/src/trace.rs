//! What holds of a request whatever happens to it.
//!
//! A run is a series of events, each taken into account in turn. The
//! statements here are made of every run, so of every path that the program
//! can take through a request.

use crate::attach::{begun, pending, stepped, ActionView, AttachView, EventView, Phase};
use crate::guard::enter;
use crate::launch::Platform;
use vstd::prelude::*;

verus! {

/// The state of the request `s` after `events`.
pub open spec fn run(s: AttachView, events: Seq<EventView>) -> AttachView
    decreases events.len(),
{
    if events.len() == 0 {
        s
    } else {
        stepped(run(s, events.drop_last()), events.last()).0
    }
}

/// The action that is asked for when the last of `events` has been taken
/// into account.
pub open spec fn answer(s: AttachView, events: Seq<EventView>) -> ActionView
    recommends
        events.len() > 0,
{
    stepped(run(s, events.drop_last()), events.last()).1
}

/// Whether the program was asked to set the flag in the course of `events`.
pub open spec fn was_armed(s: AttachView, events: Seq<EventView>) -> bool {
    exists|k: int| 1 <= k <= events.len() && #[trigger] answer(s, events.take(k)) is ArmFlag
}

/// The latch and a step keep a request in order.
pub proof fn lemma_step_keeps_order(s: AttachView, e: EventView, held: bool)
    requires
        s.inv(),
    ensures
        stepped(s, e).0.inv(),
        begun(s, held).0.inv(),
{
}

/// A request is in order after every run.
pub proof fn lemma_run_keeps_order(s: AttachView, events: Seq<EventView>)
    requires
        s.inv(),
    ensures
        run(s, events).inv(),
    decreases events.len(),
{
    if events.len() > 0 {
        lemma_run_keeps_order(s, events.drop_last());
        lemma_step_keeps_order(run(s, events.drop_last()), events.last(), false);
    }
}

/// A step asks for the terminal to be started only when the flag is set:
/// either the program has just reported that it set the flag, or the flag
/// was set before and the start is asked for again. Nothing else leads to
/// the state in which the terminal is started, and nothing but the report
/// that the start was attempted leads on from it.
pub proof fn lemma_step_starts_terminal_armed(s: AttachView, e: EventView)
    requires
        s.inv(),
    ensures
        stepped(s, e).1 is Spawn ==> {
            &&& stepped(s, e).0.phase == Phase::FlagArmed
            &&& stepped(s, e).0.flag
            &&& (s.phase == Phase::MessageEncoded && pending(s) is ArmFlag && e is Done) || (s.phase
                == Phase::FlagArmed && s.flag && !(e is Spawned))
        },
        stepped(s, e).0.phase == Phase::TerminalSpawned ==> s.flag && (s.phase == Phase::FlagArmed
            || s.phase == Phase::TerminalSpawned),
        pending(s) is Spawn ==> s.phase == Phase::FlagArmed && s.flag,
{
}

/// The program waits only on a terminal that was started. A step leads to
/// the waiting state only from the state after a start that did not fail;
/// while the program waits, only the flag seen cleared ends the wait; and
/// the flag is read in no other state.
pub proof fn lemma_step_waits_on_terminal(s: AttachView, e: EventView)
    requires
        s.inv(),
    ensures
        stepped(s, e).0.phase == Phase::Blocked ==> (s.phase == Phase::Blocked || (s.phase
            == Phase::TerminalSpawned && s.failure is None && e is Done)),
        s.phase == Phase::Blocked ==> (if e == EventView::Flag(false) {
            stepped(s, e).0.phase == Phase::Released && stepped(s, e).1 is Return
        } else {
            stepped(s, e) == (s, ActionView::Poll)
        }),
        stepped(s, e).1 is Poll <==> stepped(s, e).0.phase == Phase::Blocked,
        stepped(s, e).0.phase == Phase::Released ==> !stepped(s, e).0.flag,
{
}

/// A request that fails says why exactly once, in the step that makes it
/// fail, and that step comes from one of three states: the environment was
/// being checked, the programs were being looked for, or the attempt to
/// start the terminal was over. A request that is over stays as it is, and
/// the program is told to return.
pub proof fn lemma_step_fails_with_a_word(s: AttachView, e: EventView)
    requires
        s.inv(),
    ensures
        stepped(s, e).1 is Report <==> (stepped(s, e).0.phase == Phase::Failed && s.phase
            != Phase::Failed),
        stepped(s, e).1 is Report ==> (s.phase == Phase::GuardChecked || s.phase
            == Phase::EnvironmentSane || s.phase == Phase::TerminalSpawned),
        s.is_over() ==> stepped(s, e) == (s, ActionView::Return),
{
}

/// When a run of a fresh request ends with the program being asked to start
/// the terminal, the flag is set at that moment, and the program was asked
/// to set it at an earlier moment of the run.
pub proof fn lemma_armed_before_spawn(
    platform: Platform,
    pid: nat,
    debugger: Option<Seq<char>>,
    held: bool,
    events: Seq<EventView>,
)
    requires
        events.len() > 0,
    ensures
        ({
            let start = begun(AttachView::initial(platform, pid, debugger), held).0;
            answer(start, events) is Spawn ==> {
                &&& run(start, events).flag
                &&& run(start, events).phase == Phase::FlagArmed
                &&& was_armed(start, events.drop_last())
            }
        }),
{
    let start = begun(AttachView::initial(platform, pid, debugger), held).0;
    let before = events.drop_last();
    lemma_run_keeps_order(start, before);
    lemma_step_starts_terminal_armed(run(start, before), events.last());
    lemma_arming_is_on_record(start, before);
}

/// In a run of a request that had not got as far as the message, the
/// program was asked to set the flag if the request has got beyond that.
pub proof fn lemma_arming_is_on_record(start: AttachView, events: Seq<EventView>)
    requires
        start.inv(),
        start.phase == Phase::Idle || start.phase == Phase::GuardChecked || start.phase
            == Phase::Declined,
    ensures
        ({
            let s = run(start, events);
            (s.phase == Phase::MessageEncoded || s.phase == Phase::FlagArmed || s.phase
                == Phase::TerminalSpawned || s.phase == Phase::Blocked || s.phase == Phase::Released
                || s.flag) ==> was_armed(start, events)
        }),
    decreases events.len(),
{
    let s = run(start, events);
    if events.len() > 0 {
        let before = events.drop_last();
        let prior = run(start, before);
        lemma_run_keeps_order(start, before);
        lemma_arming_is_on_record(start, before);
        if s.phase == Phase::MessageEncoded || s.phase == Phase::FlagArmed || s.phase
            == Phase::TerminalSpawned || s.phase == Phase::Blocked || s.phase == Phase::Released
            || s.flag {
            if prior.phase == Phase::BinariesResolved {
                assert(events.take(events.len() as int) =~= events);
                assert(answer(start, events.take(events.len() as int)) is ArmFlag);
            } else {
                assert(was_armed(start, before));
                let k = choose|k: int| 1 <= k <= before.len() && #[trigger] answer(
                    start,
                    before.take(k),
                ) is ArmFlag;
                assert(events.take(k) =~= before.take(k));
            }
        }
    }
}

/// A request that finds the latch closed does nothing: whatever debugger it
/// asks for and whatever is reported to it, it stays declined and every
/// action it asks for is to return. And the latch is closed for every
/// request but the first, since testing it closes it.
pub proof fn lemma_later_request_is_void(
    platform: Platform,
    pid: nat,
    debugger: Option<Seq<char>>,
    held: bool,
    events: Seq<EventView>,
)
    ensures
        ({
            let request = AttachView::initial(platform, pid, debugger);
            let latch_after_earlier_request = enter(held).0;
            let start = begun(request, latch_after_earlier_request);
            &&& start == (request.at(Phase::Declined), ActionView::Return)
            &&& run(start.0, events) == start.0
            &&& events.len() > 0 ==> answer(start.0, events) is Return
        }),
    decreases events.len(),
{
    if events.len() > 0 {
        lemma_later_request_is_void(platform, pid, debugger, held, events.drop_last());
    }
}

/// The first request passes the latch and is told to check the
/// environment.
pub proof fn lemma_first_request_goes_on(platform: Platform, pid: nat, debugger: Option<Seq<char>>)
    ensures
        ({
            let request = AttachView::initial(platform, pid, debugger);
            begun(request, false) == (
                request.at(Phase::GuardChecked),
                ActionView::CheckEnvironment,
            )
        }),
{
}

} // verus!
