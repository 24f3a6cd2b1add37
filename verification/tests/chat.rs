use command_gateway::chat::{
    check_ollama_status, endpoint, probe_address, send_message_to_llm, BodyOutcome, ChatMessage,
    ChatResponse, ProbeOutcome, Role, SendOutcome,
};
use command_gateway::error::{ErrorKind, GatewayError};
use command_gateway::status::HttpStatus;

const PERSONA: &str = "You are Personaliz Desktop Assistant. You help users set up OpenClaw automation without touching command line. Be concise and helpful.";

fn said(role: Role, content: &str) -> ChatMessage {
    ChatMessage { role, content: content.to_string() }
}

fn status(code: u16) -> HttpStatus {
    HttpStatus::new(code).unwrap()
}

#[test]
fn service_is_running_if_the_connection_was_made() {
    assert!(check_ollama_status(ProbeOutcome::Connected));
    assert!(!check_ollama_status(ProbeOutcome::Failed));
}

#[test]
fn service_is_looked_for_on_the_loopback_port() {
    assert_eq!(probe_address(), "127.0.0.1:11434");
    assert_eq!(endpoint(), "http://localhost:11434/api/chat");
}

#[test]
fn request_holds_persona_history_and_message() {
    let (_, request) = send_message_to_llm("help".to_string(), vec![said(Role::User, "hi")]);
    assert_eq!(
        request.messages,
        vec![said(Role::System, PERSONA), said(Role::User, "hi"), said(Role::User, "help")]
    );
    assert_eq!(request.model, "llama3:8b");
    assert!(!request.stream);
}

#[test]
fn request_without_history_holds_persona_and_message() {
    let (_, request) = send_message_to_llm("hello".to_string(), vec![]);
    assert_eq!(request.messages, vec![said(Role::System, PERSONA), said(Role::User, "hello")]);
}

#[test]
fn request_keeps_the_history_in_order() {
    let history = vec![
        said(Role::User, "first"),
        said(Role::Assistant, "second"),
        said(Role::System, "third"),
        said(Role::User, ""),
    ];
    let (_, request) = send_message_to_llm("last".to_string(), history.clone());
    assert_eq!(request.messages.len(), 6);
    assert_eq!(request.messages[0], said(Role::System, PERSONA));
    assert_eq!(request.messages[1..5].to_vec(), history);
    assert_eq!(request.messages[5], said(Role::User, "last"));
}

#[test]
fn server_error_is_a_remote_error_with_its_status() {
    let (pending, _) = send_message_to_llm("help".to_string(), vec![]);
    let next = pending.responded(SendOutcome::Responded { status: status(500) });
    let error = next.unwrap_err();
    assert_eq!(error, GatewayError::RemoteError { status: status(500) });
    assert_eq!(error.kind(), ErrorKind::RemoteError);
    assert_eq!(error.message(), "500 Internal Server Error");
}

#[test]
fn every_status_but_success_is_a_remote_error() {
    let mut code: u16 = 100;
    while code <= 999 {
        let (pending, _) = send_message_to_llm("help".to_string(), vec![]);
        let next = pending.responded(SendOutcome::Responded { status: status(code) });
        if (200..=299).contains(&code) {
            assert!(next.is_ok(), "{}", code);
        } else {
            assert_eq!(next.unwrap_err(), GatewayError::RemoteError { status: status(code) });
        }
        code += 1;
    }
}

#[test]
fn no_answer_is_a_connect_error() {
    let (pending, _) = send_message_to_llm("help".to_string(), vec![]);
    let next = pending.responded(SendOutcome::Unreachable { reason: "connection refused".to_string() });
    assert_eq!(
        next.unwrap_err(),
        GatewayError::ConnectError { reason: "connection refused".to_string() }
    );
}

#[test]
fn answer_gives_the_content_of_its_message() {
    let (pending, _) = send_message_to_llm("help".to_string(), vec![]);
    let reading = pending.responded(SendOutcome::Responded { status: status(200) }).unwrap();
    let reply = reading.received(BodyOutcome::Decoded {
        response: ChatResponse { message: said(Role::Assistant, " Install it first.\n") },
    });
    assert_eq!(reply, Ok(" Install it first.\n".to_string()));
}

#[test]
fn body_of_another_shape_is_a_decode_error() {
    let (pending, _) = send_message_to_llm("help".to_string(), vec![]);
    let reading = pending.responded(SendOutcome::Responded { status: status(204) }).unwrap();
    let reply = reading.received(BodyOutcome::Malformed { reason: "missing field `message`".to_string() });
    assert_eq!(
        reply,
        Err(GatewayError::DecodeError { reason: "missing field `message`".to_string() })
    );
}
