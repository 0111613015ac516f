//! Whole runs: what the driver does over a sequence of events, and what
//! holds of every such run.

use vstd::prelude::*;
use crate::driver::{accepts, initial_state, transition, ActionView, DriverView, EventView, PhaseView};
use crate::policy::SettingsView;

verus! {

/// How far along its lifecycle a phase lies.
pub open spec fn rank(phase: PhaseView) -> nat {
    match phase {
        PhaseView::Start => 0,
        PhaseView::Connecting => 1,
        PhaseView::Connected => 2,
        PhaseView::Probing => 3,
        PhaseView::Disconnecting(_) => 4,
        PhaseView::Evaluated(_) => 5,
        PhaseView::Exit => 6,
    }
}

/// The state a run that starts in `state` is in after `events`.
pub open spec fn state_after(state: DriverView, events: Seq<EventView>) -> DriverView
    decreases events.len(),
{
    if events.len() == 0 {
        state
    } else {
        state_after(transition(state, events.first()).0, events.drop_first())
    }
}

/// The actions a run that starts in `state` asks for over `events`, in order.
pub open spec fn actions_of(state: DriverView, events: Seq<EventView>) -> Seq<ActionView>
    decreases events.len(),
{
    if events.len() == 0 {
        Seq::empty()
    } else {
        let (next, action) = transition(state, events.first());
        let rest = actions_of(next, events.drop_first());
        match action {
            Some(action) => seq![action] + rest,
            None => rest,
        }
    }
}

/// Whether, at some point of the run, the transport reported the connection
/// open while the run was waiting for it.
pub open spec fn connection_opened(state: DriverView, events: Seq<EventView>) -> bool
    decreases events.len(),
{
    events.len() > 0 && ((state.phase is Connecting && events.first() is Opened)
        || connection_opened(transition(state, events.first()).0, events.drop_first()))
}

/// How many of `actions` ask for the connection to be closed.
pub open spec fn close_requests(actions: Seq<ActionView>) -> nat
    decreases actions.len(),
{
    if actions.len() == 0 {
        0
    } else if actions.first() is Close {
        1 + close_requests(actions.drop_first())
    } else {
        close_requests(actions.drop_first())
    }
}

/// Every step the driver takes moves the run strictly forward along its
/// lifecycle and leaves its settings alone; an event the phase is not
/// waiting for is not a step.
pub proof fn theorem_steps_move_forward(state: DriverView, event: EventView)
    ensures
        transition(state, event).1.is_some() <==> accepts(state.phase, event),
        accepts(state.phase, event) ==> rank(transition(state, event).0.phase) > rank(state.phase),
        !accepts(state.phase, event) ==> transition(state, event).0 == state,
        transition(state, event).0.settings == state.settings,
{
}

/// The report is handed out on entering `Exit` and at no other step, and
/// nothing is accepted after it.
pub proof fn theorem_report_ends_the_run(state: DriverView, event: EventView)
    ensures
        (transition(state, event).1 is Some && transition(state, event).1->Some_0 is Finish) <==> (
        accepts(state.phase, event) && transition(state, event).0.phase is Exit),
        state.phase is Exit ==> !accepts(state.phase, event),
{
}

/// A failure to close the connection changes nothing: the run goes on as if
/// the close had succeeded.
pub proof fn theorem_close_failure_is_ignored(state: DriverView)
    ensures
        transition(state, EventView::CloseFailed) == transition(state, EventView::Closed),
{
}

/// The place of a request in the order of a run: opening first, then the
/// query, then closing, then the report. `Advance` asks for nothing and has
/// no place.
pub open spec fn request_order(action: ActionView) -> nat {
    match action {
        ActionView::Advance => 0,
        ActionView::Open { .. } => 1,
        ActionView::Query => 2,
        ActionView::Close => 3,
        ActionView::Finish(_) => 4,
    }
}

/// Whether the requests among `actions` stand in the order of the
/// lifecycle, each kind at most once.
pub open spec fn in_lifecycle_order(actions: Seq<ActionView>) -> bool {
    forall|i: int, j: int|
        #![trigger actions[i], actions[j]]
        0 <= i < j < actions.len() && !(actions[i] is Advance) && !(actions[j] is Advance)
            ==> request_order(actions[i]) < request_order(actions[j])
}

/// The place of the earliest request a run in `phase` can still make.
spec fn earliest_request(phase: PhaseView) -> nat {
    match phase {
        PhaseView::Start => 1,
        PhaseView::Connecting | PhaseView::Connected => 2,
        PhaseView::Probing => 3,
        PhaseView::Disconnecting(_) | PhaseView::Evaluated(_) => 4,
        PhaseView::Exit => 5,
    }
}

proof fn lemma_requests_from(state: DriverView, events: Seq<EventView>)
    ensures
        in_lifecycle_order(actions_of(state, events)),
        forall|i: int|
            #![trigger actions_of(state, events)[i]]
            0 <= i < actions_of(state, events).len() && !(actions_of(state, events)[i] is Advance)
                ==> request_order(actions_of(state, events)[i]) >= earliest_request(state.phase),
    decreases events.len(),
{
    if events.len() > 0 {
        let (next, action) = transition(state, events.first());
        let later = actions_of(next, events.drop_first());
        lemma_requests_from(next, events.drop_first());
        if let Some(first) = action {
            let all = actions_of(state, events);
            assert(all == seq![first] + later);
            assert(!(first is Advance) ==> earliest_request(next.phase) > request_order(first));
            assert forall|i: int| 1 <= i < all.len() implies all[i] == later[i - 1] by {}
        }
    }
}

/// Over any sequence of events whatever, the requests of a run come in the
/// order of its lifecycle: the open before the query, the query before the
/// close, the close before the report. None is made twice.
pub proof fn theorem_requests_come_in_order(settings: SettingsView, events: Seq<EventView>)
    ensures
        in_lifecycle_order(actions_of(initial_state(settings), events)),
{
    lemma_requests_from(initial_state(settings), events);
}

proof fn lemma_close_requests_cons(action: ActionView, rest: Seq<ActionView>)
    ensures
        close_requests(seq![action] + rest) == close_requests(rest) + (if action is Close {
            1nat
        } else {
            0nat
        }),
{
    let all = seq![action] + rest;
    assert(all.first() == action);
    assert(all.drop_first() =~= rest);
}

proof fn lemma_closes_from(state: DriverView, events: Seq<EventView>)
    ensures
        ({
            let closes = close_requests(actions_of(state, events));
            let opened = connection_opened(state, events);
            let end = state_after(state, events);
            match state.phase {
                PhaseView::Start | PhaseView::Connecting => {
                    &&& closes <= 1
                    &&& closes == 1 ==> opened
                    &&& end.phase is Exit ==> (closes == 1 <==> opened)
                },
                PhaseView::Connected | PhaseView::Probing => {
                    &&& closes <= 1
                    &&& end.phase is Exit ==> closes == 1
                },
                PhaseView::Disconnecting(_) | PhaseView::Evaluated(_) | PhaseView::Exit => {
                    &&& closes == 0
                    &&& !opened
                },
            }
        }),
    decreases events.len(),
{
    if events.len() > 0 {
        let (next, action) = transition(state, events.first());
        let rest = events.drop_first();
        lemma_closes_from(next, rest);
        if let Some(action) = action {
            lemma_close_requests_cons(action, actions_of(next, rest));
        }
    }
}

/// Over any sequence of events whatever, a run asks for the connection to be
/// closed at most once, and never unless it was opened. A run that has
/// reached `Exit` has asked for it exactly once if the connection was
/// opened, whether or not the query then succeeded, and not at all if it
/// was not.
pub proof fn theorem_connection_closed_exactly_once(settings: SettingsView, events: Seq<EventView>)
    ensures
        close_requests(actions_of(initial_state(settings), events)) <= 1,
        close_requests(actions_of(initial_state(settings), events)) == 1 ==> connection_opened(
            initial_state(settings),
            events,
        ),
        state_after(initial_state(settings), events).phase is Exit ==> (close_requests(
            actions_of(initial_state(settings), events),
        ) == 1 <==> connection_opened(initial_state(settings), events)),
{
    lemma_closes_from(initial_state(settings), events);
}

} // verus!
