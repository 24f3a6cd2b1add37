use command_gateway::error::{ErrorKind, GatewayError};
use command_gateway::status::HttpStatus;

#[test]
fn status_takes_three_digit_codes() {
    assert!(HttpStatus::new(0).is_none());
    assert!(HttpStatus::new(99).is_none());
    assert_eq!(HttpStatus::new(100).unwrap().code(), 100);
    assert_eq!(HttpStatus::new(404).unwrap().code(), 404);
    assert_eq!(HttpStatus::new(999).unwrap().code(), 999);
    assert!(HttpStatus::new(1000).is_none());
    assert!(HttpStatus::new(u16::MAX).is_none());
}

#[test]
fn status_from_200_to_299_is_success() {
    let mut code: u16 = 100;
    while code <= 999 {
        let status = HttpStatus::new(code).unwrap();
        assert_eq!(status.is_success(), 200 <= code && code <= 299, "{}", code);
        code += 1;
    }
}

#[test]
fn status_line_holds_number_and_reason() {
    assert_eq!(HttpStatus::new(200).unwrap().line(), "200 OK");
    assert_eq!(HttpStatus::new(404).unwrap().line(), "404 Not Found");
    assert_eq!(HttpStatus::new(500).unwrap().line(), "500 Internal Server Error");
    assert_eq!(HttpStatus::new(503).unwrap().line(), "503 Service Unavailable");
}

#[test]
fn status_line_begins_with_the_code() {
    let mut code: u16 = 100;
    while code <= 999 {
        let line = HttpStatus::new(code).unwrap().line();
        assert!(line.starts_with(&format!("{} ", code)), "{}", line);
        code += 1;
    }
}

#[test]
fn every_error_has_its_kind() {
    let text = "x".to_string();
    assert_eq!(GatewayError::NotFound { location: text.clone() }.kind(), ErrorKind::NotFound);
    assert_eq!(GatewayError::SpawnError { reason: text.clone() }.kind(), ErrorKind::SpawnError);
    assert_eq!(GatewayError::ProcessError { stderr: text.clone() }.kind(), ErrorKind::ProcessError);
    assert_eq!(GatewayError::ConnectError { reason: text.clone() }.kind(), ErrorKind::ConnectError);
    assert_eq!(
        GatewayError::RemoteError { status: HttpStatus::new(502).unwrap() }.kind(),
        ErrorKind::RemoteError
    );
    assert_eq!(GatewayError::DecodeError { reason: text }.kind(), ErrorKind::DecodeError);
}

#[test]
fn every_error_shows_what_it_carries() {
    assert_eq!(
        GatewayError::NotFound { location: "/opt/app/public/agent_engine.py".to_string() }.message(),
        "/opt/app/public/agent_engine.py"
    );
    assert_eq!(
        GatewayError::SpawnError { reason: "permission denied".to_string() }.message(),
        "permission denied"
    );
    assert_eq!(
        GatewayError::ProcessError { stderr: "Traceback\n  boom\n".to_string() }.message(),
        "Traceback\n  boom\n"
    );
    assert_eq!(
        GatewayError::ConnectError { reason: "connection refused".to_string() }.message(),
        "connection refused"
    );
    assert_eq!(
        GatewayError::RemoteError { status: HttpStatus::new(502).unwrap() }.message(),
        "502 Bad Gateway"
    );
    assert_eq!(
        GatewayError::DecodeError { reason: "expected value".to_string() }.message(),
        "expected value"
    );
}
