//! The driver under arbitrary sequences of events, in turn or out of turn.

use node_health::driver::{Action, Driver, Event, Phase};
use node_health::error::{ConnectionError, ProbeError};
use node_health::policy::Settings;
use node_health::verdict::ServerInfo;

fn event(kind: usize) -> Event {
    match kind {
        0 => Event::Advance,
        1 => Event::Opened,
        2 => Event::OpenFailed(ConnectionError::Timeout(String::from("Connection timeout"))),
        3 => Event::Replied(ServerInfo {
            is_synced: true,
            server_version: String::from("0.1.2"),
            network_id: String::from("mainnet"),
            virtual_daa_score: 12345,
        }),
        4 => Event::ProbeFailed(ProbeError::TransportFailure(String::from("dropped"))),
        5 => Event::Closed,
        _ => Event::CloseFailed,
    }
}

fn rank(phase: &Phase) -> u32 {
    match phase {
        Phase::Start => 0,
        Phase::Connecting => 1,
        Phase::Connected => 2,
        Phase::Probing => 3,
        Phase::Disconnecting(_) => 4,
        Phase::Evaluated(_) => 5,
        Phase::Exit => 6,
    }
}

fn order(action: &Action) -> u32 {
    match action {
        Action::Advance => 0,
        Action::Open { .. } => 1,
        Action::Query => 2,
        Action::Close => 3,
        Action::Finish(_) => 4,
    }
}

/// Feeds the driver the events of the given kinds and checks, step by step,
/// what must hold of every run.
fn check_run(kinds: &[usize]) {
    let mut driver =
        Driver::new(Settings::resolve(String::from("ws://node"), None, Some(true), Some(100)));
    let mut closes = 0;
    let mut finishes = 0;
    let mut opened = false;
    let mut last_request = 0;
    for kind in kinds {
        let before = rank(driver.phase());
        let was_connecting = matches!(driver.phase(), Phase::Connecting);
        let given = event(*kind);
        let is_opened = matches!(given, Event::Opened);
        match driver.step(given) {
            Some(action) => {
                assert!(rank(driver.phase()) > before);
                if was_connecting && is_opened {
                    opened = true;
                }
                if !matches!(action, Action::Advance) {
                    assert!(order(&action) > last_request);
                    last_request = order(&action);
                }
                if matches!(action, Action::Close) {
                    closes += 1;
                    assert!(opened);
                }
                if matches!(action, Action::Finish(_)) {
                    finishes += 1;
                    assert_eq!(driver.phase(), &Phase::Exit);
                }
            }
            None => assert_eq!(rank(driver.phase()), before),
        }
        assert!(closes <= 1);
        assert!(finishes <= 1);
    }
    if matches!(driver.phase(), Phase::Exit) {
        assert_eq!(finishes, 1);
        assert_eq!(closes == 1, opened);
    }
}

#[test]
fn every_short_sequence_of_events_keeps_the_lifecycle() {
    let mut kinds = [0usize; 6];
    loop {
        check_run(&kinds);
        let mut place = 0;
        while place < kinds.len() && kinds[place] == 6 {
            kinds[place] = 0;
            place += 1;
        }
        if place == kinds.len() {
            break;
        }
        kinds[place] += 1;
    }
}

#[test]
fn long_mixed_sequences_of_events_keep_the_lifecycle() {
    let mut seed: u64 = 0x2545_f491_4f6c_dd1d;
    for _ in 0..20000 {
        let mut kinds = [0usize; 16];
        for kind in kinds.iter_mut() {
            seed ^= seed << 13;
            seed ^= seed >> 7;
            seed ^= seed << 17;
            *kind = (seed % 7) as usize;
        }
        check_run(&kinds);
    }
}

#[test]
fn a_run_in_turn_reaches_exit_whatever_is_mixed_in() {
    // each event of a healthy run, with the kinds its phase is waiting for
    let in_turn: [(usize, &[usize]); 6] =
        [(0, &[0]), (1, &[1, 2]), (0, &[0]), (3, &[3, 4]), (5, &[5, 6]), (0, &[0])];
    let mut driver = Driver::new(Settings::resolve(String::from("ws://node"), None, None, None));
    let mut actions = Vec::new();
    for (kind, awaited) in in_turn {
        for noise in 0..7 {
            if !awaited.contains(&noise) {
                assert_eq!(driver.step(event(noise)), None);
            }
        }
        let action = driver.step(event(kind)).expect("the event is in turn");
        actions.push(order(&action));
    }
    assert_eq!(driver.phase(), &Phase::Exit);
    assert_eq!(actions, vec![1, 0, 2, 3, 0, 4]);
}
