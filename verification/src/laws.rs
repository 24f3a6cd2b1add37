//! What holds of the gateway's operations whatever they are given.

use crate::agent::{
    execute_agent_plan, post_to_linkedin_plan, run_python_agent_plan, AgentInvocationView,
    ScriptProbeView,
};
use crate::chat::{
    after_send, chat_request_of, persona, ChatMessageView, Role, SendOutcomeView, CHAT_MODEL,
};
use crate::error::GatewayErrorView;
use crate::platform::Platform;
use crate::process::{exit_success, InvocationView, ProcessResultView, SpawnOutcomeView};
use crate::reply::{presence_of, structured_reply_of, trimmed_reply_of, verbatim_reply_of};
use crate::report::{envelope_of, json_document, AgentReportView};
use crate::text::{is_white_space, lemma_trimmed_fixed, lemma_trimmed_frame, trimmed};
use vstd::prelude::*;

verus! {

/// Where the agent script is missing, each operation that would run it
/// fails with `NotFound` and the script's location, and plans no subprocess.
pub proof fn lemma_missing_script_is_not_found(
    platform: Platform,
    script: ScriptProbeView,
    agent: AgentInvocationView,
    content: Seq<char>,
    agent_id: Seq<char>,
    sandbox: bool,
)
    requires
        !script.present,
    ensures
        execute_agent_plan(script, agent) == Err::<InvocationView, GatewayErrorView>(
            GatewayErrorView::NotFound { location: script.location },
        ),
        post_to_linkedin_plan(script, content, sandbox) == Err::<InvocationView, GatewayErrorView>(
            GatewayErrorView::NotFound { location: script.location },
        ),
        run_python_agent_plan(platform, script, agent_id, sandbox) == Err::<InvocationView, GatewayErrorView>(
            GatewayErrorView::NotFound { location: script.location },
        ),
{
}

/// Whether `text` ends with one of the flags `sandbox`, `prod` and `live`.
pub open spec fn ends_with_mode_flag(text: Seq<char>) -> bool {
    ||| "sandbox"@.is_suffix_of(text)
    ||| "prod"@.is_suffix_of(text)
    ||| "live"@.is_suffix_of(text)
}

/// `text` without the flag `sandbox`, `prod` or `live` at its end, if it
/// ends with one.
pub open spec fn without_mode_flag(text: Seq<char>) -> Seq<char> {
    if "sandbox"@.is_suffix_of(text) {
        text.take(text.len() - "sandbox"@.len())
    } else if "prod"@.is_suffix_of(text) {
        text.take(text.len() - "prod"@.len())
    } else if "live"@.is_suffix_of(text) {
        text.take(text.len() - "live"@.len())
    } else {
        text
    }
}

/// The outcome of a subprocess that exited with `exit_code`, or without
/// one, and wrote `stdout` and `stderr`.
pub open spec fn exited(exit_code: Option<i32>, stdout: Seq<char>, stderr: Seq<char>) -> SpawnOutcomeView {
    SpawnOutcomeView::Exited(
        ProcessResultView { success: exit_success(exit_code), stdout, stderr },
    )
}

/// A subprocess that exited with another code than zero, or with none,
/// makes its operation fail with `ProcessError`, and the failure carries the
/// standard error: stated here of a standard error that does not end with a
/// mode flag, so that taking such a flag from its end leaves it as it stands.
pub proof fn lemma_failed_process_reports_stderr(
    exit_code: Option<i32>,
    stdout: Seq<char>,
    stderr: Seq<char>,
)
    requires
        exit_code != Some(0i32),
        !ends_with_mode_flag(stderr),
    ensures
        trimmed_reply_of(exited(exit_code, stdout, stderr)) == Err::<Seq<char>, GatewayErrorView>(
            GatewayErrorView::ProcessError { stderr: without_mode_flag(stderr) },
        ),
        verbatim_reply_of(exited(exit_code, stdout, stderr)) == Err::<Seq<char>, GatewayErrorView>(
            GatewayErrorView::ProcessError { stderr: without_mode_flag(stderr) },
        ),
        structured_reply_of(exited(exit_code, stdout, stderr)) == Err::<
            AgentReportView,
            GatewayErrorView,
        >(GatewayErrorView::ProcessError { stderr: without_mode_flag(stderr) }),
{
}

/// A subprocess that exited with the code zero makes its operation answer
/// with its standard output, cut down to the piece between the white space
/// at its two ends.
pub proof fn lemma_successful_process_reports_trimmed_output(stdout: Seq<char>, stderr: Seq<char>)
    ensures
        trimmed_reply_of(exited(Some(0i32), stdout, stderr)) == Ok::<Seq<char>, GatewayErrorView>(
            trimmed(stdout),
        ),
        trimmed(stdout).len() > 0 ==> !is_white_space(trimmed(stdout).first()) && !is_white_space(
            trimmed(stdout).last(),
        ),
        trimmed(trimmed(stdout)) == trimmed(stdout),
{
    lemma_trimmed_frame(stdout);
    lemma_trimmed_fixed(trimmed(stdout));
}

/// The shell passthrough answers with the standard output as it stands,
/// which is the trimmed output where the output neither begins nor ends
/// with white space.
pub proof fn lemma_successful_command_reports_output(stdout: Seq<char>, stderr: Seq<char>)
    requires
        stdout.len() > 0 ==> !is_white_space(stdout.first()) && !is_white_space(stdout.last()),
    ensures
        verbatim_reply_of(exited(Some(0i32), stdout, stderr)) == Ok::<Seq<char>, GatewayErrorView>(
            trimmed(stdout),
        ),
{
    lemma_trimmed_fixed(stdout);
}

/// A scripted run that exited with the code zero answers with the document
/// that its trimmed output is, and where the output is no document, with
/// the envelope whose message is the trimmed output.
pub proof fn lemma_successful_run_reports_document_or_envelope(
    stdout: Seq<char>,
    stderr: Seq<char>,
)
    ensures
        json_document(trimmed(stdout)) matches Some(document) ==> structured_reply_of(
            exited(Some(0i32), stdout, stderr),
        ) == Ok::<AgentReportView, GatewayErrorView>(AgentReportView::Document(document)),
        json_document(trimmed(stdout)) is None ==> structured_reply_of(
            exited(Some(0i32), stdout, stderr),
        ) == Ok::<AgentReportView, GatewayErrorView>(envelope_of(trimmed(stdout))),
        envelope_of(trimmed(stdout))->message == trimmed(stdout),
{
}

/// A request holds the persona first, then the history message by message
/// in its order, then the new message as the user's, and nothing else.
pub proof fn lemma_request_keeps_order(message: Seq<char>, history: Seq<ChatMessageView>)
    ensures
        chat_request_of(message, history).model == CHAT_MODEL@,
        !chat_request_of(message, history).stream,
        chat_request_of(message, history).messages.len() == history.len() + 2,
        chat_request_of(message, history).messages.first() == persona(),
        forall|i: int|
            0 <= i < history.len() ==> chat_request_of(message, history).messages[i + 1]
                == #[trigger] history[i],
        chat_request_of(message, history).messages.last() == (ChatMessageView {
            role: Role::User,
            content: message,
        }),
{
}

/// A status other than success ends the exchange with `RemoteError` and
/// that status; the body is not asked for.
pub proof fn lemma_failure_status_is_remote_error(status: u16)
    requires
        !(200 <= status <= 299),
    ensures
        after_send(SendOutcomeView::Responded { status }) == Err::<(), GatewayErrorView>(
            GatewayErrorView::RemoteError { status },
        ),
{
}

/// A lookup finds its tool if and only if its subprocess exited with the
/// code zero, whatever the subprocess wrote.
pub proof fn lemma_presence_ignores_output(
    exit_code: Option<i32>,
    stdout: Seq<char>,
    stderr: Seq<char>,
    other_stdout: Seq<char>,
    other_stderr: Seq<char>,
)
    ensures
        presence_of(exited(exit_code, stdout, stderr)) == (exit_code == Some(0i32)),
        presence_of(exited(exit_code, stdout, stderr)) == presence_of(
            exited(exit_code, other_stdout, other_stderr),
        ),
{
}

} // verus!
