//! How a connection is to be opened, and the settings of one run.

use vstd::prelude::*;
use crate::encoding::{select_encoding, selected_encoding, Encoding};

verus! {

/// The connect deadline used where none is configured, in milliseconds.
pub const DEFAULT_CONNECT_TIMEOUT_MS: u64 = 5000;

/// What the transport does when a connection attempt fails.
#[derive(Clone, Copy, Debug, PartialEq, Eq, Structural)]
pub enum ConnectStrategy {
    /// Try an alternate path to the same target before giving up.
    FallbackOnFailure,
    /// Make exactly one attempt; any failure is terminal.
    SingleAttempt,
}

/// The policy under which a connection is opened. Built once per run and
/// handed to the transport unchanged.
#[derive(Clone, Copy, Debug, PartialEq, Eq, Structural)]
pub struct ConnectPolicy {
    /// Whether opening suspends the caller until the session is established.
    pub block_until_connected: bool,
    /// The deadline for establishing the session, in milliseconds.
    pub connect_timeout_ms: u64,
    /// What to do when an attempt fails.
    pub strategy: ConnectStrategy,
}

/// The policy of a run with the given optional deadline: blocking, falling
/// back on failure, with the default deadline where none is configured.
pub open spec fn probe_policy(timeout_ms: Option<u64>) -> ConnectPolicy {
    ConnectPolicy {
        block_until_connected: true,
        connect_timeout_ms: match timeout_ms {
            Some(ms) => ms,
            None => DEFAULT_CONNECT_TIMEOUT_MS,
        },
        strategy: ConnectStrategy::FallbackOnFailure,
    }
}

impl ConnectPolicy {
    /// The policy a health check connects under.
    pub fn for_probe(timeout_ms: Option<u64>) -> (policy: ConnectPolicy)
        ensures
            policy == probe_policy(timeout_ms),
    {
        let connect_timeout_ms: u64 = match timeout_ms {
            Some(ms) => ms,
            None => DEFAULT_CONNECT_TIMEOUT_MS,
        };
        ConnectPolicy {
            block_until_connected: true,
            connect_timeout_ms,
            strategy: ConnectStrategy::FallbackOnFailure,
        }
    }
}

/// Everything one run is configured with.
#[derive(Clone, Debug, PartialEq, Eq)]
pub struct Settings {
    /// The address of the remote endpoint, passed to the transport as it is.
    pub target: String,
    /// The encoding the connection is opened with.
    pub encoding: Encoding,
    /// Whether a summary line is produced.
    pub verbose: bool,
    /// The policy the connection is opened under.
    pub policy: ConnectPolicy,
}

/// The mathematical value of [`Settings`].
pub struct SettingsView {
    pub target: Seq<char>,
    pub encoding: Encoding,
    pub verbose: bool,
    pub policy: ConnectPolicy,
}

impl View for Settings {
    type V = SettingsView;

    open spec fn view(&self) -> SettingsView {
        SettingsView {
            target: self.target@,
            encoding: self.encoding,
            verbose: self.verbose,
            policy: self.policy,
        }
    }
}

/// The settings that a target and the optional configuration values stand
/// for: each absent value takes its default.
pub open spec fn resolved_settings(
    target: Seq<char>,
    encoding: Option<Encoding>,
    verbose: Option<bool>,
    timeout_ms: Option<u64>,
) -> SettingsView {
    SettingsView {
        target,
        encoding: selected_encoding(encoding),
        verbose: match verbose {
            Some(flag) => flag,
            None => false,
        },
        policy: probe_policy(timeout_ms),
    }
}

impl Settings {
    /// Resolves the configuration of a run, filling in the defaults: the
    /// compact binary encoding, no summary, a deadline of
    /// [`DEFAULT_CONNECT_TIMEOUT_MS`].
    pub fn resolve(
        target: String,
        encoding: Option<Encoding>,
        verbose: Option<bool>,
        timeout_ms: Option<u64>,
    ) -> (settings: Settings)
        ensures
            settings@ == resolved_settings(target@, encoding, verbose, timeout_ms),
    {
        Settings {
            target,
            encoding: select_encoding(encoding),
            verbose: match verbose {
                Some(flag) => flag,
                None => false,
            },
            policy: ConnectPolicy::for_probe(timeout_ms),
        }
    }
}

} // verus!
