//! Whole runs against a scripted endpoint.

use node_health::driver::{Action, Driver, Event, Phase};
use node_health::encoding::Encoding;
use node_health::error::{ConnectionError, ProbeError};
use node_health::policy::{ConnectPolicy, ConnectStrategy, Settings};
use node_health::report::Report;
use node_health::verdict::ServerInfo;

/// An endpoint that answers every request in a fixed way and keeps count of
/// what it was asked.
struct Endpoint {
    open: Result<(), ConnectionError>,
    reply: Result<ServerInfo, ProbeError>,
    close_fails: bool,
    opens: Vec<(String, Encoding, ConnectPolicy)>,
    queries: usize,
    closes: usize,
    log: Vec<&'static str>,
}

impl Endpoint {
    fn new(open: Result<(), ConnectionError>, reply: Result<ServerInfo, ProbeError>) -> Endpoint {
        Endpoint { open, reply, close_fails: false, opens: Vec::new(), queries: 0, closes: 0, log: Vec::new() }
    }

    fn reporting(info: ServerInfo) -> Endpoint {
        Endpoint::new(Ok(()), Ok(info))
    }

    fn unreachable(error: ConnectionError) -> Endpoint {
        Endpoint::new(Err(error), Err(ProbeError::TransportFailure(String::from("never asked"))))
    }

    fn dropping(error: ProbeError) -> Endpoint {
        Endpoint::new(Ok(()), Err(error))
    }
}

fn node(is_synced: bool) -> ServerInfo {
    ServerInfo {
        is_synced,
        server_version: String::from("0.1.2"),
        network_id: String::from("mainnet"),
        virtual_daa_score: 12345,
    }
}

fn settings(verbose: bool, timeout_ms: Option<u64>) -> Settings {
    Settings::resolve(String::from("ws://node.example:17110"), None, Some(verbose), timeout_ms)
}

/// Performs each action the driver asks for against `endpoint` and hands
/// back what came of it, until the driver hands out its report.
fn run(settings: Settings, endpoint: &mut Endpoint) -> (Report, Driver) {
    let mut driver = Driver::new(settings);
    let mut event = Event::Advance;
    loop {
        let action = driver.step(event).expect("the driver accepts the answer to its own action");
        event = match action {
            Action::Open { target, encoding, policy } => {
                endpoint.log.push("open");
                endpoint.opens.push((target, encoding, policy));
                match &endpoint.open {
                    Ok(()) => Event::Opened,
                    Err(error) => Event::OpenFailed(error.clone()),
                }
            }
            Action::Advance => Event::Advance,
            Action::Query => {
                endpoint.log.push("query");
                endpoint.queries += 1;
                match &endpoint.reply {
                    Ok(info) => Event::Replied(info.clone()),
                    Err(error) => Event::ProbeFailed(error.clone()),
                }
            }
            Action::Close => {
                endpoint.log.push("close");
                endpoint.closes += 1;
                if endpoint.close_fails {
                    Event::CloseFailed
                } else {
                    Event::Closed
                }
            }
            Action::Finish(report) => return (report, driver),
        };
    }
}

#[test]
fn synced_node_verbose_prints_summary_and_succeeds() {
    let mut endpoint = Endpoint::reporting(node(true));
    let (report, driver) = run(settings(true, None), &mut endpoint);
    assert_eq!(report.stdout, Some(String::from("kaspa/0.1.2/mainnet/12345/synced")));
    assert_eq!(report.exit_code, 0);
    assert_eq!(report.stderr, None);
    assert_eq!(driver.phase(), &Phase::Exit);
}

#[test]
fn unsynced_node_verbose_prints_summary_and_fails() {
    let mut endpoint = Endpoint::reporting(node(false));
    let (report, _) = run(settings(true, None), &mut endpoint);
    assert_eq!(report.stdout, Some(String::from("kaspa/0.1.2/mainnet/12345/not-synced")));
    assert_eq!(report.exit_code, 1);
    assert_eq!(report.stderr, Some(String::from("Error: node is not synced")));
}

#[test]
fn unreachable_target_fails_without_summary() {
    let mut endpoint =
        Endpoint::unreachable(ConnectionError::Timeout(String::from("Connection timeout")));
    let (report, driver) = run(settings(true, Some(100)), &mut endpoint);
    assert_eq!(report.exit_code, 1);
    assert_eq!(report.stdout, None);
    assert_eq!(report.stderr, Some(String::from("Error: Connection timeout")));
    assert_eq!(endpoint.opens.len(), 1);
    assert_eq!(endpoint.opens[0].2.connect_timeout_ms, 100);
    assert!(endpoint.opens[0].2.block_until_connected);
    assert_eq!(endpoint.queries, 0);
    assert_eq!(endpoint.closes, 0);
    assert_eq!(driver.phase(), &Phase::Exit);
}

#[test]
fn synced_node_quiet_prints_nothing() {
    let mut endpoint = Endpoint::reporting(node(true));
    let (report, _) = run(settings(false, None), &mut endpoint);
    assert_eq!(report.exit_code, 0);
    assert_eq!(report.stdout, None);
    assert_eq!(report.stderr, None);
}

#[test]
fn unsynced_node_quiet_fails_with_error_only() {
    let mut endpoint = Endpoint::reporting(node(false));
    let (report, _) = run(settings(false, None), &mut endpoint);
    assert_eq!(report.exit_code, 1);
    assert_eq!(report.stdout, None);
    assert_eq!(report.stderr, Some(String::from("Error: node is not synced")));
}

#[test]
fn refused_connection_reports_the_transport_message() {
    let mut endpoint =
        Endpoint::unreachable(ConnectionError::Refused(String::from("connection refused")));
    let (report, _) = run(settings(false, None), &mut endpoint);
    assert_eq!(report.exit_code, 1);
    assert_eq!(report.stdout, None);
    assert_eq!(report.stderr, Some(String::from("Error: connection refused")));
    assert_eq!(endpoint.closes, 0);
}

#[test]
fn open_carries_target_encoding_and_policy() {
    let mut endpoint = Endpoint::reporting(node(true));
    let chosen = Settings::resolve(
        String::from("wss://other.example/json"),
        Some(Encoding::SerdeJson),
        None,
        Some(250),
    );
    run(chosen, &mut endpoint);
    assert_eq!(endpoint.opens.len(), 1);
    let (target, encoding, policy) = endpoint.opens[0].clone();
    assert_eq!(target, "wss://other.example/json");
    assert_eq!(encoding, Encoding::SerdeJson);
    assert_eq!(
        policy,
        ConnectPolicy {
            block_until_connected: true,
            connect_timeout_ms: 250,
            strategy: ConnectStrategy::FallbackOnFailure,
        }
    );
}

#[test]
fn connection_is_closed_exactly_once_after_a_reply() {
    let mut endpoint = Endpoint::reporting(node(true));
    run(settings(true, None), &mut endpoint);
    assert_eq!(endpoint.closes, 1);
    assert_eq!(endpoint.log, vec!["open", "query", "close"]);
}

#[test]
fn connection_is_closed_exactly_once_when_the_query_fails() {
    let mut endpoint =
        Endpoint::dropping(ProbeError::TransportFailure(String::from("WebSocket disconnected")));
    let (report, driver) = run(settings(true, None), &mut endpoint);
    assert_eq!(endpoint.closes, 1);
    assert_eq!(endpoint.log, vec!["open", "query", "close"]);
    assert_eq!(report.exit_code, 1);
    assert_eq!(report.stdout, None);
    assert_eq!(report.stderr, Some(String::from("Error: WebSocket disconnected")));
    assert_eq!(driver.phase(), &Phase::Exit);
}

#[test]
fn failed_close_does_not_overturn_a_healthy_verdict() {
    let mut endpoint = Endpoint::reporting(node(true));
    endpoint.close_fails = true;
    let (report, _) = run(settings(true, None), &mut endpoint);
    assert_eq!(endpoint.closes, 1);
    assert_eq!(report.exit_code, 0);
    assert_eq!(report.stdout, Some(String::from("kaspa/0.1.2/mainnet/12345/synced")));
    assert_eq!(report.stderr, None);
}

#[test]
fn failed_close_does_not_hide_a_failed_query() {
    let mut endpoint = Endpoint::dropping(ProbeError::TransportFailure(String::from("reset")));
    endpoint.close_fails = true;
    let (report, _) = run(settings(false, None), &mut endpoint);
    assert_eq!(endpoint.closes, 1);
    assert_eq!(report.exit_code, 1);
    assert_eq!(report.stderr, Some(String::from("Error: reset")));
}

#[test]
fn identical_runs_give_identical_reports() {
    for synced in [true, false] {
        let mut first = Endpoint::reporting(node(synced));
        let mut second = Endpoint::reporting(node(synced));
        let (one, _) = run(settings(true, Some(100)), &mut first);
        let (two, _) = run(settings(true, Some(100)), &mut second);
        assert_eq!(one, two);
        assert_eq!(first.log, second.log);
    }
}

#[test]
fn every_target_gives_the_same_verdict() {
    for target in ["ws://127.0.0.1:17110", "wss://node.example", "", "not a url"] {
        let mut endpoint = Endpoint::reporting(node(true));
        let chosen = Settings::resolve(String::from(target), None, Some(true), None);
        let (report, _) = run(chosen, &mut endpoint);
        assert_eq!(report.exit_code, 0);
        assert!(report.stdout.expect("a summary was asked for").ends_with("/synced"));
        assert_eq!(endpoint.opens[0].0, target);

        let mut endpoint = Endpoint::reporting(node(false));
        let chosen = Settings::resolve(String::from(target), None, Some(true), None);
        let (report, _) = run(chosen, &mut endpoint);
        assert_eq!(report.exit_code, 1);
        assert!(report.stdout.expect("a summary was asked for").ends_with("/not-synced"));
    }
}
