//! What can make a run fail.

use vstd::prelude::*;
use vstd::string::*;

verus! {

/// Why no connection was established. Each variant carries the transport's
/// own account of the failure.
#[derive(Clone, Debug, PartialEq, Eq)]
pub enum ConnectionError {
    /// The connect deadline elapsed.
    Timeout(String),
    /// The target refused, or the transport failed in some other way.
    Refused(String),
}

/// Why the status query produced no snapshot.
#[derive(Clone, Debug, PartialEq, Eq)]
pub enum ProbeError {
    /// The connection dropped, or the response was malformed; with the
    /// transport's own account of it.
    TransportFailure(String),
}

/// Every way a run ends in failure.
#[derive(Clone, Debug, PartialEq, Eq)]
pub enum RunError {
    /// No connection could be opened.
    Connection(ConnectionError),
    /// The query failed on an open connection.
    Probe(ProbeError),
    /// The node answered, and reports that it is not synced.
    UnhealthyNode,
}

/// The mathematical value of [`ConnectionError`].
pub enum ConnectionErrorView {
    Timeout(Seq<char>),
    Refused(Seq<char>),
}

/// The mathematical value of [`ProbeError`].
pub enum ProbeErrorView {
    TransportFailure(Seq<char>),
}

/// The mathematical value of [`RunError`].
pub enum RunErrorView {
    Connection(ConnectionErrorView),
    Probe(ProbeErrorView),
    UnhealthyNode,
}

impl View for ConnectionError {
    type V = ConnectionErrorView;

    open spec fn view(&self) -> ConnectionErrorView {
        match self {
            ConnectionError::Timeout(detail) => ConnectionErrorView::Timeout(detail@),
            ConnectionError::Refused(detail) => ConnectionErrorView::Refused(detail@),
        }
    }
}

impl View for ProbeError {
    type V = ProbeErrorView;

    open spec fn view(&self) -> ProbeErrorView {
        match self {
            ProbeError::TransportFailure(detail) => ProbeErrorView::TransportFailure(detail@),
        }
    }
}

impl View for RunError {
    type V = RunErrorView;

    open spec fn view(&self) -> RunErrorView {
        match self {
            RunError::Connection(error) => RunErrorView::Connection(error@),
            RunError::Probe(error) => RunErrorView::Probe(error@),
            RunError::UnhealthyNode => RunErrorView::UnhealthyNode,
        }
    }
}

/// The message of a failure: the transport's account where the transport
/// failed, a fixed sentence where the node is unhealthy.
pub open spec fn message_text(error: RunErrorView) -> Seq<char> {
    match error {
        RunErrorView::Connection(ConnectionErrorView::Timeout(detail)) => detail,
        RunErrorView::Connection(ConnectionErrorView::Refused(detail)) => detail,
        RunErrorView::Probe(ProbeErrorView::TransportFailure(detail)) => detail,
        RunErrorView::UnhealthyNode => "node is not synced"@,
    }
}

/// The line a failure puts on the error channel.
pub open spec fn error_line_text(error: RunErrorView) -> Seq<char> {
    "Error: "@ + message_text(error)
}

impl RunError {
    /// The human-readable message of this failure.
    pub fn message(&self) -> (text: String)
        ensures
            text@ == message_text(self@),
    {
        match self {
            RunError::Connection(ConnectionError::Timeout(detail)) => detail.clone(),
            RunError::Connection(ConnectionError::Refused(detail)) => detail.clone(),
            RunError::Probe(ProbeError::TransportFailure(detail)) => detail.clone(),
            RunError::UnhealthyNode => String::from_str("node is not synced"),
        }
    }

    /// The line this failure puts on the error channel.
    pub fn error_line(&self) -> (line: String)
        ensures
            line@ == error_line_text(self@),
    {
        let mut line = String::from_str("Error: ");
        let message = self.message();
        line.append(message.as_str());
        line
    }
}

} // verus!
