//! What the caller is told once a subprocess has been tried.

use crate::error::{result_view, GatewayError, GatewayErrorView};
use crate::process::{SpawnOutcome, SpawnOutcomeView};
use crate::report::{json_document, report_of, AgentReport, AgentReportView};
use crate::text::{trim, trimmed};
use vstd::prelude::*;

verus! {

/// The answer of an operation that reports text: the trimmed standard
/// output of a subprocess that succeeded, the standard error of one that
/// failed, the reason where none was started.
pub open spec fn trimmed_reply_of(outcome: SpawnOutcomeView) -> Result<Seq<char>, GatewayErrorView> {
    match outcome {
        SpawnOutcomeView::Refused { reason } => Err(GatewayErrorView::SpawnError { reason }),
        SpawnOutcomeView::Exited(result) => if result.success {
            Ok(trimmed(result.stdout))
        } else {
            Err(GatewayErrorView::ProcessError { stderr: result.stderr })
        },
    }
}

/// The answer of the shell passthrough: as `trimmed_reply_of`, but with the
/// standard output as it stands.
pub open spec fn verbatim_reply_of(outcome: SpawnOutcomeView) -> Result<
    Seq<char>,
    GatewayErrorView,
> {
    match outcome {
        SpawnOutcomeView::Refused { reason } => Err(GatewayErrorView::SpawnError { reason }),
        SpawnOutcomeView::Exited(result) => if result.success {
            Ok(result.stdout)
        } else {
            Err(GatewayErrorView::ProcessError { stderr: result.stderr })
        },
    }
}

/// The answer of the scripted run: as `trimmed_reply_of`, but with the
/// trimmed standard output read as a report.
pub open spec fn structured_reply_of(outcome: SpawnOutcomeView) -> Result<
    AgentReportView,
    GatewayErrorView,
> {
    match outcome {
        SpawnOutcomeView::Refused { reason } => Err(GatewayErrorView::SpawnError { reason }),
        SpawnOutcomeView::Exited(result) => if result.success {
            Ok(report_of(json_document(trimmed(result.stdout)), trimmed(result.stdout)))
        } else {
            Err(GatewayErrorView::ProcessError { stderr: result.stderr })
        },
    }
}

/// Whether a lookup found what it looked for: its subprocess ran and
/// succeeded. What the subprocess wrote plays no part.
pub open spec fn presence_of(outcome: SpawnOutcomeView) -> bool {
    match outcome {
        SpawnOutcomeView::Refused { .. } => false,
        SpawnOutcomeView::Exited(result) => result.success,
    }
}

/// What `execute_agent` and `post_to_linkedin` answer once their
/// subprocess has been tried.
pub fn trimmed_reply(outcome: SpawnOutcome) -> (reply: Result<String, GatewayError>)
    ensures
        result_view(reply) == trimmed_reply_of(outcome@),
{
    match outcome {
        SpawnOutcome::Refused { reason } => Err(GatewayError::SpawnError { reason }),
        SpawnOutcome::Exited(result) => {
            if result.success {
                Ok(trim(result.stdout.as_str()))
            } else {
                Err(GatewayError::ProcessError { stderr: result.stderr })
            }
        },
    }
}

/// What `run_openclaw_command` answers once its subprocess has been tried.
pub fn verbatim_reply(outcome: SpawnOutcome) -> (reply: Result<String, GatewayError>)
    ensures
        result_view(reply) == verbatim_reply_of(outcome@),
{
    match outcome {
        SpawnOutcome::Refused { reason } => Err(GatewayError::SpawnError { reason }),
        SpawnOutcome::Exited(result) => {
            if result.success {
                Ok(result.stdout)
            } else {
                Err(GatewayError::ProcessError { stderr: result.stderr })
            }
        },
    }
}

/// What `run_python_agent` answers once its subprocess has been tried.
pub fn structured_reply(outcome: SpawnOutcome) -> (reply: Result<AgentReport, GatewayError>)
    ensures
        result_view(reply) == structured_reply_of(outcome@),
{
    match outcome {
        SpawnOutcome::Refused { reason } => Err(GatewayError::SpawnError { reason }),
        SpawnOutcome::Exited(result) => {
            if result.success {
                Ok(AgentReport::from_text(trim(result.stdout.as_str())))
            } else {
                Err(GatewayError::ProcessError { stderr: result.stderr })
            }
        },
    }
}

/// What `check_openclaw_installed` and `check_python_available` answer
/// once their subprocess has been tried.
pub fn presence(outcome: &SpawnOutcome) -> (present: bool)
    ensures
        present == presence_of(outcome@),
{
    match outcome {
        SpawnOutcome::Refused { .. } => false,
        SpawnOutcome::Exited(result) => result.success,
    }
}

} // verus!
