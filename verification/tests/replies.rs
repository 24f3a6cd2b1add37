use command_gateway::error::{ErrorKind, GatewayError};
use command_gateway::process::{ProcessResult, SpawnOutcome};
use command_gateway::reply::{presence, structured_reply, trimmed_reply, verbatim_reply};
use command_gateway::report::AgentReport;

fn exited(success: bool, stdout: &str, stderr: &str) -> SpawnOutcome {
    SpawnOutcome::Exited(ProcessResult {
        success,
        stdout: stdout.to_string(),
        stderr: stderr.to_string(),
    })
}

fn refused(reason: &str) -> SpawnOutcome {
    SpawnOutcome::Refused { reason: reason.to_string() }
}

#[test]
fn captured_output_is_read_as_text() {
    let result = ProcessResult::from_captured(Some(0), "héllo\n".as_bytes(), b"warn");
    assert_eq!(
        result,
        ProcessResult { success: true, stdout: "héllo\n".to_string(), stderr: "warn".to_string() }
    );
}

#[test]
fn captured_bytes_that_are_not_text_are_replaced() {
    let result = ProcessResult::from_captured(Some(0), &[0x66, 0xff, 0x6f], &[0xc3, 0x28]);
    assert_eq!(result.stdout, "f\u{fffd}o");
    assert_eq!(result.stderr, "\u{fffd}(");
}

#[test]
fn captured_empty_output_is_empty_text() {
    let result = ProcessResult::from_captured(Some(0), &[], &[]);
    assert_eq!(result.stdout, "");
    assert_eq!(result.stderr, "");
}

#[test]
fn only_exit_code_zero_is_success() {
    assert!(ProcessResult::from_captured(Some(0), b"", b"").success);
    for code in [1, 2, 127, 255, -1, i32::MAX, i32::MIN] {
        assert!(!ProcessResult::from_captured(Some(code), b"", b"").success, "{}", code);
    }
    assert!(!ProcessResult::from_captured(None, b"", b"").success);
}

#[test]
fn success_answers_with_trimmed_output() {
    assert_eq!(trimmed_reply(exited(true, "  posted 3 items\n", "noise")), Ok("posted 3 items".to_string()));
}

#[test]
fn success_with_blank_output_answers_with_empty_text() {
    assert_eq!(trimmed_reply(exited(true, " \n\t", "")), Ok(String::new()));
}

#[test]
fn failure_answers_with_standard_error() {
    assert_eq!(
        trimmed_reply(exited(false, "partial", "Traceback: boom\n")),
        Err(GatewayError::ProcessError { stderr: "Traceback: boom\n".to_string() })
    );
}

#[test]
fn failure_keeps_a_standard_error_that_ends_with_a_mode_flag() {
    for stderr in ["unknown mode sandbox", "prod", "cannot go live"] {
        assert_eq!(
            trimmed_reply(exited(false, "", stderr)),
            Err(GatewayError::ProcessError { stderr: stderr.to_string() })
        );
    }
}

#[test]
fn failure_of_every_operation_carries_standard_error() {
    let expected = GatewayError::ProcessError { stderr: "boom".to_string() };
    assert_eq!(trimmed_reply(exited(false, "{}", "boom")), Err(expected.clone()));
    assert_eq!(verbatim_reply(exited(false, "{}", "boom")), Err(expected.clone()));
    assert_eq!(structured_reply(exited(false, "{}", "boom")), Err(expected));
}

#[test]
fn refusal_of_every_operation_carries_the_reason() {
    let expected = GatewayError::SpawnError { reason: "No such file or directory".to_string() };
    assert_eq!(trimmed_reply(refused("No such file or directory")), Err(expected.clone()));
    assert_eq!(verbatim_reply(refused("No such file or directory")), Err(expected.clone()));
    assert_eq!(structured_reply(refused("No such file or directory")), Err(expected));
}

#[test]
fn command_output_is_handed_on_as_it_stands() {
    assert_eq!(verbatim_reply(exited(true, "  line one\nline two\n", "")), Ok("  line one\nline two\n".to_string()));
}

#[test]
fn command_failure_is_handed_on_as_it_stands() {
    let error = verbatim_reply(exited(false, "out", " sh: nope: not found\n")).unwrap_err();
    assert_eq!(error.kind(), ErrorKind::ProcessError);
    assert_eq!(error.message(), " sh: nope: not found\n");
}

#[test]
fn document_is_returned_as_parsed() {
    let reply = structured_reply(exited(
        true,
        "\n {\"status\": \"done\", \"count\": 3, \"logs\": [\"a\", null, true]} \n",
        "",
    ));
    let mut expected = serde_json::Map::new();
    expected.insert("status".to_string(), serde_json::Value::String("done".to_string()));
    expected.insert("count".to_string(), serde_json::Value::Number(3.into()));
    expected.insert(
        "logs".to_string(),
        serde_json::Value::Array(vec![
            serde_json::Value::String("a".to_string()),
            serde_json::Value::Null,
            serde_json::Value::Bool(true),
        ]),
    );
    assert_eq!(reply, Ok(AgentReport::Document(serde_json::Value::Object(expected))));
}

#[test]
fn document_need_not_be_an_object() {
    assert_eq!(
        structured_reply(exited(true, "42", "")),
        Ok(AgentReport::Document(serde_json::Value::Number(42.into())))
    );
    assert_eq!(
        structured_reply(exited(true, "\"done\"\n", "")),
        Ok(AgentReport::Document(serde_json::Value::String("done".to_string())))
    );
}

#[test]
fn document_survives_encoding_and_decoding() {
    let text = "{\"b\": [1, 2.5, {\"c\": null}], \"a\": \"x\\ny\", \"d\": -7}";
    let first = match structured_reply(exited(true, text, "")) {
        Ok(AgentReport::Document(value)) => value,
        other => panic!("{:?}", other),
    };
    let encoded = serde_json::to_string(&first).unwrap();
    let second = match AgentReport::from_text(encoded) {
        AgentReport::Document(value) => value,
        other => panic!("{:?}", other),
    };
    assert_eq!(first, second);
}

#[test]
fn text_that_is_no_document_is_wrapped() {
    assert_eq!(
        structured_reply(exited(true, "  Agent finished: 3 posts\n", "")),
        Ok(AgentReport::Envelope {
            status: "success".to_string(),
            message: "Agent finished: 3 posts".to_string(),
            logs: vec![],
        })
    );
}

#[test]
fn broken_document_is_wrapped() {
    assert_eq!(
        structured_reply(exited(true, "{\"status\": \"done\"", "")),
        Ok(AgentReport::Envelope {
            status: "success".to_string(),
            message: "{\"status\": \"done\"".to_string(),
            logs: vec![],
        })
    );
}

#[test]
fn two_documents_are_wrapped() {
    assert_eq!(
        structured_reply(exited(true, "{} {}", "")),
        Ok(AgentReport::Envelope {
            status: "success".to_string(),
            message: "{} {}".to_string(),
            logs: vec![],
        })
    );
}

#[test]
fn empty_output_is_wrapped() {
    assert_eq!(
        structured_reply(exited(true, "\n", "")),
        Ok(AgentReport::Envelope {
            status: "success".to_string(),
            message: String::new(),
            logs: vec![],
        })
    );
}

#[test]
fn document_is_read_from_the_trimmed_output() {
    assert_eq!(
        structured_reply(exited(true, "\u{a0}[]\u{3000}", "")),
        Ok(AgentReport::Document(serde_json::Value::Array(vec![])))
    );
}

#[test]
fn report_from_a_reading_that_failed_is_the_envelope() {
    let read = serde_json::from_str::<serde_json::Value>("not json");
    assert_eq!(
        AgentReport::from_reading(read, "anything".to_string()),
        AgentReport::Envelope {
            status: "success".to_string(),
            message: "anything".to_string(),
            logs: vec![],
        }
    );
}

#[test]
fn report_from_a_reading_that_succeeded_is_the_document() {
    let read = serde_json::from_str::<serde_json::Value>("[null]");
    assert_eq!(
        AgentReport::from_reading(read, "ignored".to_string()),
        AgentReport::Document(serde_json::Value::Array(vec![serde_json::Value::Null]))
    );
}

#[test]
fn report_from_text_reads_the_text() {
    assert_eq!(
        AgentReport::from_text("true".to_string()),
        AgentReport::Document(serde_json::Value::Bool(true))
    );
    assert_eq!(
        AgentReport::from_text("tru".to_string()),
        AgentReport::Envelope {
            status: "success".to_string(),
            message: "tru".to_string(),
            logs: vec![],
        }
    );
}

#[test]
fn tool_is_present_if_the_lookup_succeeded() {
    assert!(presence(&exited(true, "/usr/bin/openclaw\n", "")));
    assert!(!presence(&exited(false, "", "which: no openclaw in (/usr/bin)\n")));
    assert!(!presence(&refused("No such file or directory")));
}

#[test]
fn presence_does_not_read_the_output() {
    for stdout in ["", "/usr/bin/openclaw\n", "not found", "\u{fffd}"] {
        for stderr in ["", "not found"] {
            assert!(presence(&exited(true, stdout, stderr)));
            assert!(!presence(&exited(false, stdout, stderr)));
        }
    }
}
