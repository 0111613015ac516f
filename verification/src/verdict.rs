//! From the node's answer to a health verdict.

use vstd::prelude::*;
use vstd::string::*;
use crate::text::{append_decimal, decimal_text};

verus! {

/// The snapshot a node returns to the status query.
#[derive(Clone, Debug, PartialEq, Eq)]
pub struct ServerInfo {
    /// Whether the node reports itself in sync with its network.
    pub is_synced: bool,
    /// The version of the node's software.
    pub server_version: String,
    /// The network the node belongs to.
    pub network_id: String,
    /// The node's current DAA score, passed through as reported.
    pub virtual_daa_score: u64,
}

/// The mathematical value of [`ServerInfo`].
pub struct ServerInfoView {
    pub is_synced: bool,
    pub server_version: Seq<char>,
    pub network_id: Seq<char>,
    pub virtual_daa_score: u64,
}

impl View for ServerInfo {
    type V = ServerInfoView;

    open spec fn view(&self) -> ServerInfoView {
        ServerInfoView {
            is_synced: self.is_synced,
            server_version: self.server_version@,
            network_id: self.network_id@,
            virtual_daa_score: self.virtual_daa_score,
        }
    }
}

/// What a run concludes about the node.
#[derive(Clone, Debug, PartialEq, Eq)]
pub struct Verdict {
    /// Whether the node passed the check.
    pub healthy: bool,
    /// The human-readable line, produced only on request.
    pub summary: Option<String>,
}

/// The mathematical value of [`Verdict`].
pub struct VerdictView {
    pub healthy: bool,
    pub summary: Option<Seq<char>>,
}

impl View for Verdict {
    type V = VerdictView;

    open spec fn view(&self) -> VerdictView {
        VerdictView {
            healthy: self.healthy,
            summary: match self.summary {
                Some(line) => Some(line@),
                None => None,
            },
        }
    }
}

/// The status token of a summary line.
pub open spec fn status_text(is_synced: bool) -> Seq<char> {
    if is_synced {
        "synced"@
    } else {
        "not-synced"@
    }
}

/// The summary line of a snapshot: the network tag, the server version, the
/// network id, the DAA score in decimal and the status token, in this order,
/// separated by slashes.
pub open spec fn summary_text(info: ServerInfoView) -> Seq<char> {
    "kaspa/"@ + info.server_version + "/"@ + info.network_id + "/"@ + decimal_text(
        info.virtual_daa_score as nat,
    ) + "/"@ + status_text(info.is_synced)
}

/// The verdict on a snapshot: healthy exactly when the node is synced, with
/// the summary line exactly when `verbose` asks for it.
pub open spec fn verdict_of(info: ServerInfoView, verbose: bool) -> VerdictView {
    VerdictView {
        healthy: info.is_synced,
        summary: if verbose {
            Some(summary_text(info))
        } else {
            None
        },
    }
}

/// A summary line ends in `/synced` exactly when the node is synced, and in
/// `/not-synced` exactly when it is not.
pub proof fn theorem_summary_ends_in_status(info: ServerInfoView)
    ensures
        "/synced"@.is_suffix_of(summary_text(info)) <==> info.is_synced,
        "/not-synced"@.is_suffix_of(summary_text(info)) <==> !info.is_synced,
{
    reveal_strlit("/");
    reveal_strlit("synced");
    reveal_strlit("not-synced");
    reveal_strlit("/synced");
    reveal_strlit("/not-synced");
    let line = summary_text(info);
    let n = line.len() as int;
    if info.is_synced {
        assert(line.subrange(n - 7, n) =~= "/synced"@);
        if "/not-synced"@.is_suffix_of(line) {
            assert(line.subrange(n - 11, n)[4] == '-');
            assert(line[n - 7] == '/');
        }
    } else {
        assert(line.subrange(n - 11, n) =~= "/not-synced"@);
        if "/synced"@.is_suffix_of(line) {
            assert(line.subrange(n - 7, n)[0] == '/');
            assert(line[n - 7] == '-');
        }
    }
}

/// Formats the summary line of a snapshot.
pub fn summary_line(info: &ServerInfo) -> (line: String)
    ensures
        line@ == summary_text(info@),
{
    let mut line = String::from_str("kaspa/");
    line.append(info.server_version.as_str());
    line.append("/");
    line.append(info.network_id.as_str());
    line.append("/");
    append_decimal(&mut line, info.virtual_daa_score);
    line.append("/");
    if info.is_synced {
        line.append("synced");
    } else {
        line.append("not-synced");
    }
    line
}

/// Maps a snapshot onto the verdict of the run. Never fails.
pub fn evaluate(info: ServerInfo, verbose: bool) -> (verdict: Verdict)
    ensures
        verdict@ == verdict_of(info@, verbose),
{
    let summary = if verbose {
        Some(summary_line(&info))
    } else {
        None
    };
    Verdict { healthy: info.is_synced, summary }
}

} // verus!
