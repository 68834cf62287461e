use jdtls_bootstrap::error::BootstrapError;
use jdtls_bootstrap::handler::{Handler, HandlerState, RequestAction};

#[test]
fn handler_starts_idle() {
    assert_eq!(Handler::new().state, HandlerState::Idle);
}

#[test]
fn initialize_is_run() {
    assert_eq!(Handler::new().handle_request("initialize"), RequestAction::Initialize);
}

#[test]
fn other_methods_are_ignored() {
    let handler = Handler::new();
    for method in ["", "initialized", "Initialize", "initialize ", "shutdown", "textDocument/hover"]
    {
        assert_eq!(handler.handle_request(method), RequestAction::Ignore);
    }
}

#[test]
fn second_handshake_is_run_again() {
    let mut handler = Handler::new();
    handler.record_outcome(true);
    assert_eq!(handler.state, HandlerState::Started);
    assert_eq!(handler.handle_request("initialize"), RequestAction::Initialize);
    assert_eq!(handler.handle_request("shutdown"), RequestAction::Ignore);
}

#[test]
fn aborted_call_leaves_the_state() {
    let mut handler = Handler::new();
    handler.record_outcome(false);
    assert_eq!(handler.state, HandlerState::Idle);
    handler.record_outcome(true);
    handler.record_outcome(false);
    assert_eq!(handler.state, HandlerState::Started);
}

#[test]
fn every_error_has_its_message() {
    assert_eq!(BootstrapError::ConfigError.message(), "malformed configuration value");
    assert_eq!(BootstrapError::DownloadError.message(), "download failed");
    assert_eq!(BootstrapError::ExtractError.message(), "archive extraction failed");
    assert_eq!(
        BootstrapError::AgentPathError.message(),
        "working directory is not a filesystem path"
    );
}
