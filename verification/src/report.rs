//! What a finished run hands to the process: an exit code and the lines for
//! the output and error channels.

use vstd::prelude::*;
use crate::error::{error_line_text, RunError, RunErrorView};
use crate::verdict::{Verdict, VerdictView};

verus! {

/// The exit code of a run that found the node healthy.
pub const EXIT_SUCCESS: u8 = 0;

/// The exit code of every other run.
pub const EXIT_FAILURE: u8 = 1;

/// The outcome of a run as the process presents it.
#[derive(Clone, Debug, PartialEq, Eq)]
pub struct Report {
    /// The process exit code.
    pub exit_code: u8,
    /// The line for the standard output channel, if any.
    pub stdout: Option<String>,
    /// The line for the standard error channel, if any.
    pub stderr: Option<String>,
}

/// The mathematical value of [`Report`].
pub struct ReportView {
    pub exit_code: u8,
    pub stdout: Option<Seq<char>>,
    pub stderr: Option<Seq<char>>,
}

impl View for Report {
    type V = ReportView;

    open spec fn view(&self) -> ReportView {
        ReportView {
            exit_code: self.exit_code,
            stdout: match self.stdout {
                Some(line) => Some(line@),
                None => None,
            },
            stderr: match self.stderr {
                Some(line) => Some(line@),
                None => None,
            },
        }
    }
}

/// The report of a run that failed before a verdict was reached: failure,
/// nothing on the output channel, the error's line on the error channel.
pub open spec fn failure_report(error: RunErrorView) -> ReportView {
    ReportView { exit_code: EXIT_FAILURE, stdout: None, stderr: Some(error_line_text(error)) }
}

/// The report of a run that reached a verdict. The summary, if there is one,
/// goes to the output channel whatever the verdict; an unhealthy node is a
/// failure and is named on the error channel.
pub open spec fn verdict_report(verdict: VerdictView) -> ReportView {
    if verdict.healthy {
        ReportView { exit_code: EXIT_SUCCESS, stdout: verdict.summary, stderr: None }
    } else {
        ReportView {
            exit_code: EXIT_FAILURE,
            stdout: verdict.summary,
            stderr: Some(error_line_text(RunErrorView::UnhealthyNode)),
        }
    }
}

impl Report {
    /// The report of a run that ended in `error` without a verdict.
    pub fn from_failure(error: &RunError) -> (report: Report)
        ensures
            report@ == failure_report(error@),
    {
        Report { exit_code: EXIT_FAILURE, stdout: None, stderr: Some(error.error_line()) }
    }

    /// The report of a run that reached `verdict`.
    pub fn from_verdict(verdict: Verdict) -> (report: Report)
        ensures
            report@ == verdict_report(verdict@),
    {
        if verdict.healthy {
            Report { exit_code: EXIT_SUCCESS, stdout: verdict.summary, stderr: None }
        } else {
            let unhealthy = RunError::UnhealthyNode;
            Report {
                exit_code: EXIT_FAILURE,
                stdout: verdict.summary,
                stderr: Some(unhealthy.error_line()),
            }
        }
    }
}

} // verus!
