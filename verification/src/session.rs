//! A run in closed loop: the driver on one side, on the other an endpoint
//! that answers each action in a fixed way.

use vstd::prelude::*;
use crate::driver::{initial_state, transition, ActionView, DriverView, EventView};
use crate::error::{
    error_line_text,
    ConnectionErrorView,
    ProbeErrorView,
    RunErrorView,
};
use crate::encoding::{selected_encoding, Encoding};
use crate::policy::{
    resolved_settings,
    ConnectPolicy,
    ConnectStrategy,
    SettingsView,
    DEFAULT_CONNECT_TIMEOUT_MS,
};
use crate::report::{failure_report, ReportView, EXIT_FAILURE, EXIT_SUCCESS};
use crate::run::{close_requests, rank};
use crate::verdict::{summary_text, theorem_summary_ends_in_status, ServerInfoView};

verus! {

/// How an endpoint behaves towards one run.
pub struct EndpointView {
    /// What comes of opening a connection to it.
    pub open: Result<(), ConnectionErrorView>,
    /// What comes of the status query, once connected.
    pub reply: Result<ServerInfoView, ProbeErrorView>,
    /// Whether closing the connection fails.
    pub close_fails: bool,
}

/// What the endpoint makes the caller report for `action`; nothing once the
/// run has finished.
pub open spec fn answer(endpoint: EndpointView, action: ActionView) -> Option<EventView> {
    match action {
        ActionView::Open { .. } => Some(
            match endpoint.open {
                Ok(_) => EventView::Opened,
                Err(error) => EventView::OpenFailed(error),
            },
        ),
        ActionView::Advance => Some(EventView::Advance),
        ActionView::Query => Some(
            match endpoint.reply {
                Ok(info) => EventView::Replied(info),
                Err(error) => EventView::ProbeFailed(error),
            },
        ),
        ActionView::Close => Some(
            if endpoint.close_fails {
                EventView::CloseFailed
            } else {
                EventView::Closed
            },
        ),
        ActionView::Finish(_) => None,
    }
}

/// The actions of a run that is in `state`, is handed `event`, and from then
/// on has each action answered by `endpoint`.
pub open spec fn session_from(state: DriverView, event: EventView, endpoint: EndpointView) -> Seq<
    ActionView,
>
    decreases 6 - rank(state.phase),
{
    let (next, action) = transition(state, event);
    match action {
        None => Seq::empty(),
        Some(action) => match answer(endpoint, action) {
            None => seq![action],
            Some(reply) => seq![action] + session_from(next, reply, endpoint),
        },
    }
}

/// The actions of a whole run with `settings` against `endpoint`.
pub open spec fn session(settings: SettingsView, endpoint: EndpointView) -> Seq<ActionView> {
    session_from(initial_state(settings), EventView::Advance, endpoint)
}

/// The report a sequence of actions ends in, if it ends in one.
pub open spec fn final_report(actions: Seq<ActionView>) -> Option<ReportView> {
    if actions.len() > 0 && actions.last() is Finish {
        Some(actions.last()->Finish_0)
    } else {
        None
    }
}

/// The action that opens the connection a run with `settings` asks for.
pub open spec fn open_request(settings: SettingsView) -> ActionView {
    ActionView::Open {
        target: settings.target,
        encoding: settings.encoding,
        policy: settings.policy,
    }
}

/// Against an endpoint that accepts the connection and reports a synced
/// node, whatever the target and whether or not the close succeeds, the run
/// opens, queries and closes once each, in this order, and exits with
/// success: nothing on the error channel, and on the output channel the
/// summary line, which ends in `/synced`, if and only if it was asked for.
pub proof fn theorem_synced_node_passes(settings: SettingsView, endpoint: EndpointView)
    requires
        endpoint.open is Ok,
        endpoint.reply is Ok,
        endpoint.reply->Ok_0.is_synced,
    ensures
        session(settings, endpoint) == seq![
            open_request(settings),
            ActionView::Advance,
            ActionView::Query,
            ActionView::Close,
            ActionView::Advance,
            ActionView::Finish(
                ReportView {
                    exit_code: EXIT_SUCCESS,
                    stdout: if settings.verbose {
                        Some(summary_text(endpoint.reply->Ok_0))
                    } else {
                        None
                    },
                    stderr: None,
                },
            ),
        ],
        "/synced"@.is_suffix_of(summary_text(endpoint.reply->Ok_0)),
{
    reveal_with_fuel(session_from, 7);
    theorem_summary_ends_in_status(endpoint.reply->Ok_0);
}

/// Against an endpoint that accepts the connection and reports a node that
/// is not synced, the run opens, queries and closes once each and exits
/// with failure: the unhealthy node is named on the error channel, and the
/// output channel carries the summary line, which ends in `/not-synced`,
/// if and only if it was asked for.
pub proof fn theorem_unsynced_node_fails(settings: SettingsView, endpoint: EndpointView)
    requires
        endpoint.open is Ok,
        endpoint.reply is Ok,
        !endpoint.reply->Ok_0.is_synced,
    ensures
        session(settings, endpoint) == seq![
            open_request(settings),
            ActionView::Advance,
            ActionView::Query,
            ActionView::Close,
            ActionView::Advance,
            ActionView::Finish(
                ReportView {
                    exit_code: EXIT_FAILURE,
                    stdout: if settings.verbose {
                        Some(summary_text(endpoint.reply->Ok_0))
                    } else {
                        None
                    },
                    stderr: Some("Error: "@ + "node is not synced"@),
                },
            ),
        ],
        "/not-synced"@.is_suffix_of(summary_text(endpoint.reply->Ok_0)),
{
    reveal_with_fuel(session_from, 7);
    theorem_summary_ends_in_status(endpoint.reply->Ok_0);
}

/// Against an endpoint that cannot be connected to, the run ends as soon as
/// the open fails: it asks for nothing but the open, under the configured
/// policy, and exits with failure, with a non-empty line on the error
/// channel and nothing on the output channel.
pub proof fn theorem_unreachable_target_fails(settings: SettingsView, endpoint: EndpointView)
    requires
        endpoint.open is Err,
    ensures
        session(settings, endpoint) == seq![
            open_request(settings),
            ActionView::Finish(failure_report(RunErrorView::Connection(endpoint.open->Err_0))),
        ],
        final_report(session(settings, endpoint)) is Some,
        final_report(session(settings, endpoint))->Some_0.exit_code == EXIT_FAILURE,
        final_report(session(settings, endpoint))->Some_0.stdout is None,
        final_report(session(settings, endpoint))->Some_0.stderr is Some,
        final_report(session(settings, endpoint))->Some_0.stderr->Some_0.len() > 0,
{
    reveal_with_fuel(session_from, 3);
    reveal_strlit("Error: ");
}

/// Against an endpoint that accepts the connection and then fails the
/// query, the run still closes the connection before it exits with failure,
/// with the transport's account on the error channel and nothing on the
/// output channel.
pub proof fn theorem_failed_query_still_closes(settings: SettingsView, endpoint: EndpointView)
    requires
        endpoint.open is Ok,
        endpoint.reply is Err,
    ensures
        session(settings, endpoint) == seq![
            open_request(settings),
            ActionView::Advance,
            ActionView::Query,
            ActionView::Close,
            ActionView::Finish(failure_report(RunErrorView::Probe(endpoint.reply->Err_0))),
        ],
        final_report(session(settings, endpoint)) == Some(
            ReportView {
                exit_code: EXIT_FAILURE,
                stdout: None,
                stderr: Some(error_line_text(RunErrorView::Probe(endpoint.reply->Err_0))),
            },
        ),
{
    reveal_with_fuel(session_from, 6);
}

proof fn lemma_no_close(actions: Seq<ActionView>)
    requires
        forall|i: int| 0 <= i < actions.len() ==> !(#[trigger] actions[i] is Close),
    ensures
        close_requests(actions) == 0,
    decreases actions.len(),
{
    if actions.len() > 0 {
        let rest = actions.drop_first();
        assert forall|i: int| 0 <= i < rest.len() implies !(#[trigger] rest[i] is Close) by {
            assert(rest[i] == actions[i + 1]);
        }
        lemma_no_close(rest);
    }
}

proof fn lemma_single_close(actions: Seq<ActionView>, at: int)
    requires
        0 <= at < actions.len(),
        forall|i: int| 0 <= i < actions.len() ==> (#[trigger] actions[i] is Close <==> i == at),
    ensures
        close_requests(actions) == 1,
    decreases actions.len(),
{
    let rest = actions.drop_first();
    assert forall|i: int| 0 <= i < rest.len() implies (#[trigger] rest[i] is Close <==> i == at
        - 1) by {
        assert(rest[i] == actions[i + 1]);
    }
    if at == 0 {
        lemma_no_close(rest);
    } else {
        lemma_single_close(rest, at - 1);
    }
}

/// Whatever the endpoint does, a run ends in a report, and asks for the
/// connection to be closed exactly once if the connection was opened,
/// whether or not the query then succeeded, and not at all if it was not.
pub proof fn theorem_session_closes_what_it_opened(settings: SettingsView, endpoint: EndpointView)
    ensures
        final_report(session(settings, endpoint)) is Some,
        close_requests(session(settings, endpoint)) == (if endpoint.open is Ok {
            1nat
        } else {
            0nat
        }),
{
    let actions = session(settings, endpoint);
    match (endpoint.open, endpoint.reply) {
        (Err(_), _) => {
            theorem_unreachable_target_fails(settings, endpoint);
            lemma_no_close(actions);
        },
        (Ok(_), Err(_)) => {
            theorem_failed_query_still_closes(settings, endpoint);
            lemma_single_close(actions, 3);
        },
        (Ok(_), Ok(info)) => {
            if info.is_synced {
                theorem_synced_node_passes(settings, endpoint);
            } else {
                theorem_unsynced_node_fails(settings, endpoint);
            }
            lemma_single_close(actions, 3);
        },
    }
}

/// Whether `report` is a fit end for a run with `settings` against
/// `endpoint`. It exits with success exactly when the connection was opened
/// and the node answered that it is synced, and with failure otherwise. A
/// failure puts one line on the error channel, which begins with `Error: `;
/// a success puts none. The output channel carries the summary line exactly
/// when it was asked for and the node answered, whatever the answer.
pub open spec fn ends_as_it_should(
    settings: SettingsView,
    endpoint: EndpointView,
    report: ReportView,
) -> bool {
    &&& report.exit_code == EXIT_SUCCESS || report.exit_code == EXIT_FAILURE
    &&& report.exit_code == EXIT_SUCCESS <==> (endpoint.open is Ok && endpoint.reply is Ok
        && endpoint.reply->Ok_0.is_synced)
    &&& report.stderr is Some <==> report.exit_code == EXIT_FAILURE
    &&& report.stderr matches Some(line) ==> "Error: "@.is_prefix_of(line)
    &&& report.stdout is Some <==> (settings.verbose && endpoint.open is Ok
        && endpoint.reply is Ok)
    &&& report.stdout matches Some(line) ==> line == summary_text(endpoint.reply->Ok_0)
}

/// Whatever the endpoint does, a run ends in a report that maps its outcome
/// onto the exit code and the two channels as [`ends_as_it_should`] says.
pub proof fn theorem_exit_mapping(settings: SettingsView, endpoint: EndpointView)
    ensures
        final_report(session(settings, endpoint)) is Some,
        ends_as_it_should(settings, endpoint, final_report(session(settings, endpoint))->Some_0),
{
    match (endpoint.open, endpoint.reply) {
        (Err(_), _) => {
            theorem_unreachable_target_fails(settings, endpoint);
        },
        (Ok(_), Err(_)) => {
            theorem_failed_query_still_closes(settings, endpoint);
        },
        (Ok(_), Ok(info)) => {
            if info.is_synced {
                theorem_synced_node_passes(settings, endpoint);
            } else {
                theorem_unsynced_node_fails(settings, endpoint);
            }
        },
    }
    let report = final_report(session(settings, endpoint))->Some_0;
    if report.stderr is Some {
        let line = report.stderr->Some_0;
        assert(line.subrange(0, "Error: "@.len() as int) =~= "Error: "@);
    }
}

/// A run opens its connection as configured: to the given target, with the
/// chosen encoding or the compact binary one, suspending the caller until
/// the session is established, falling back on failure, and under the
/// configured deadline or the default one.
pub proof fn theorem_open_follows_configuration(
    target: Seq<char>,
    encoding: Option<Encoding>,
    verbose: Option<bool>,
    timeout_ms: Option<u64>,
    endpoint: EndpointView,
)
    ensures
        session(resolved_settings(target, encoding, verbose, timeout_ms), endpoint).first()
            == (ActionView::Open {
            target,
            encoding: selected_encoding(encoding),
            policy: ConnectPolicy {
                block_until_connected: true,
                connect_timeout_ms: if timeout_ms is Some {
                    timeout_ms->Some_0
                } else {
                    DEFAULT_CONNECT_TIMEOUT_MS
                },
                strategy: ConnectStrategy::FallbackOnFailure,
            },
        }),
{
    reveal_with_fuel(session_from, 2);
}

/// A run is determined by its settings and by what the endpoint does: two
/// runs that agree in both ask for the same actions and end in the same
/// report, summary line included.
pub proof fn theorem_identical_runs_agree(
    settings: SettingsView,
    endpoint: EndpointView,
    other_settings: SettingsView,
    other_endpoint: EndpointView,
)
    requires
        settings == other_settings,
        endpoint == other_endpoint,
    ensures
        session(settings, endpoint) == session(other_settings, other_endpoint),
        final_report(session(settings, endpoint)) == final_report(
            session(other_settings, other_endpoint),
        ),
{
}

} // verus!
