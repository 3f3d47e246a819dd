//! A session as a whole: the monitor over the turns of the loop, one after
//! another, and what holds of when a session ends.

use crate::decode::{lemma_empty_is_partial, lemma_head_takes, PieceView};
use crate::idle::{elapsed_ms, Phase};
use crate::monitor::{has_char, Decision, MonitorView, ReadEventView};
use vstd::prelude::*;

verus! {

/// What one turn of the loop is given: what the read gave, and the clock's
/// reading after it.
pub struct Turn {
    pub event: ReadEventView,
    pub now: u64,
}

/// Whether the turn brought no bytes.
pub open spec fn is_silent(turn: Turn) -> bool {
    turn.event matches ReadEventView::Data(bytes) ==> bytes.len() == 0
}

/// The state after the turns were taken in order from `start`.
pub open spec fn state_after(start: MonitorView, turns: Seq<Turn>) -> MonitorView
    decreases turns.len(),
{
    if turns.len() == 0 {
        start
    } else {
        state_after(start, turns.drop_last()).next(turns.last().event, turns.last().now)
    }
}

/// What turn `i` decides, the turns before it having been taken from
/// `start`.
pub open spec fn decision_at(start: MonitorView, turns: Seq<Turn>, i: int) -> Decision {
    state_after(start, turns.take(i)).outcome(turns[i].event, turns[i].now).decision
}

/// The idle timeout never fires on a line that has not sent a character
/// yet, whatever the clock says.
pub proof fn lemma_no_timeout_before_first_character(state: MonitorView, turn: Turn)
    requires
        !state.tracker.received_any,
        !has_char(state.found(turn.event)),
    ensures
        state.outcome(turn.event, turn.now).decision == Decision::Continue,
        !state.next(turn.event, turn.now).tracker.received_any,
{
}

/// Only text and time decide: a turn that brings no character, be it
/// silence, a failed read or bytes that are reported as malformed, leaves the
/// tracker alone and decides what a turn of silence at the same moment
/// decides. No report ends a session.
pub proof fn lemma_only_text_and_time_decide(state: MonitorView, turn: Turn)
    requires
        !has_char(state.found(turn.event)),
    ensures
        state.next(turn.event, turn.now).tracker == state.tracker,
        state.outcome(turn.event, turn.now).decision == state.outcome(
            ReadEventView::TimedOut,
            turn.now,
        ).decision,
{
}

/// A turn that brings no bytes leaves the state as it was.
pub proof fn lemma_silent_turn_changes_nothing(state: MonitorView, turn: Turn)
    requires
        state.is_valid(),
        is_silent(turn),
    ensures
        state.next(turn.event, turn.now) == state,
        state.found(turn.event) == Seq::<PieceView>::empty(),
{
    lemma_head_takes(state.held);
}

/// Silent turns, however many, leave the state as it was.
pub proof fn lemma_silent_turns_change_nothing(state: MonitorView, turns: Seq<Turn>)
    requires
        state.is_valid(),
        forall|j: int| 0 <= j < turns.len() ==> is_silent(#[trigger] turns[j]),
    ensures
        state_after(state, turns) == state,
    decreases turns.len(),
{
    if turns.len() > 0 {
        lemma_silent_turns_change_nothing(state, turns.drop_last());
        lemma_silent_turn_changes_nothing(state, turns.last());
    }
}

/// If no bytes ever arrive, the session never ends by the idle timeout,
/// however long the line is silent and whatever timeout is configured.
pub proof fn lemma_silent_line_never_times_out(
    idle_timeout: Option<u64>,
    turns: Seq<Turn>,
    i: int,
)
    requires
        forall|j: int| 0 <= j < turns.len() ==> is_silent(#[trigger] turns[j]),
        0 <= i < turns.len(),
    ensures
        decision_at(MonitorView::initial(idle_timeout), turns, i) == Decision::Continue,
{
    let start = MonitorView::initial(idle_timeout);
    lemma_empty_is_partial();
    lemma_silent_turns_change_nothing(start, turns.take(i));
    lemma_silent_turn_changes_nothing(start, turns[i]);
}

/// Once a character has been received, silence ends the session at the
/// first turn that finds the last character more than the timeout in the
/// past, and at no turn before that one.
pub proof fn lemma_silence_after_text_times_out(
    state: MonitorView,
    limit: u64,
    turns: Seq<Turn>,
    i: int,
)
    requires
        state.is_valid(),
        state.idle_timeout == Some(limit),
        state.tracker.received_any,
        forall|j: int| 0 <= j < turns.len() ==> is_silent(#[trigger] turns[j]),
        0 <= i < turns.len(),
    ensures
        decision_at(state, turns, i) == Decision::Stop <==> elapsed_ms(
            state.tracker.last_received,
            turns[i].now,
        ) > limit,
{
    lemma_silent_turns_change_nothing(state, turns.take(i));
    lemma_silent_turn_changes_nothing(state, turns[i]);
}

/// A session that is receiving never goes back to waiting for its first
/// character.
pub proof fn lemma_receiving_is_kept(start: MonitorView, turns: Seq<Turn>)
    requires
        start.tracker.phase_of() == Phase::Receiving,
    ensures
        state_after(start, turns).tracker.phase_of() == Phase::Receiving,
    decreases turns.len(),
{
    if turns.len() > 0 {
        lemma_receiving_is_kept(start, turns.drop_last());
    }
}

/// The configured timeout stays what it is through a session.
pub proof fn lemma_timeout_is_kept(start: MonitorView, turns: Seq<Turn>)
    ensures
        state_after(start, turns).idle_timeout == start.idle_timeout,
    decreases turns.len(),
{
    if turns.len() > 0 {
        lemma_timeout_is_kept(start, turns.drop_last());
    }
}

/// Without a timeout the session never ends by itself, whatever arrives
/// and however long the line is silent.
pub proof fn lemma_without_timeout_never_stops(start: MonitorView, turns: Seq<Turn>, i: int)
    requires
        start.idle_timeout is None,
        0 <= i < turns.len(),
    ensures
        decision_at(start, turns, i) == Decision::Continue,
{
    lemma_timeout_is_kept(start, turns.take(i));
}

/// A turn that brings a character never ends the session: the line was
/// active at that very moment.
pub proof fn lemma_text_keeps_session_alive(state: MonitorView, turn: Turn)
    requires
        has_char(state.found(turn.event)),
    ensures
        state.outcome(turn.event, turn.now).decision == Decision::Continue,
        state.next(turn.event, turn.now).tracker == state.tracker.recorded(turn.now),
{
}

} // verus!
