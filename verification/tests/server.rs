use sqlfriend_core::error::LspError;
use sqlfriend_core::logging::Verbosity;
use sqlfriend_core::lsp::response::{FramingError, FramingErrorKind};
use sqlfriend_core::lsp::server::{
    classify, classify_by, on_signal, stderr_forwarder_step, stdin_writer_step,
    stdout_reader_step, Control, LoopAction, LoopStep, MessageKind, SessionLoop, Signal,
};
use sqlfriend_core::task::BroadcastMessage;

const LOOPS: [SessionLoop; 4] = [
    SessionLoop::StdinWriter,
    SessionLoop::StdoutReader,
    SessionLoop::StderrForwarder,
    SessionLoop::ProcessSupervisor,
];

#[test]
fn messages_are_sorted_by_shape() {
    assert_eq!(
        classify(br#"{"jsonrpc":"2.0","id":"1","result":{}}"#),
        MessageKind::Response
    );
    assert_eq!(
        classify(br#"{"jsonrpc":"2.0","id":3,"error":{"code":1,"message":"m"}}"#),
        MessageKind::Response
    );
    assert_eq!(
        classify(br#"{"jsonrpc":"2.0","method":"textDocument/publishDiagnostics","params":{}}"#),
        MessageKind::Notification
    );
    for body in [
        &b""[..],
        b"{}",
        b"[1]",
        b"not json",
        br#"{"jsonrpc":"2.0","id":"1"}"#,
        br#"{"jsonrpc":"2.0","params":{}}"#,
    ] {
        assert_eq!(classify(body), MessageKind::Malformed);
    }
}

#[test]
fn response_shape_counts_first() {
    assert_eq!(classify_by(true, true), MessageKind::Response);
    assert_eq!(classify_by(true, false), MessageKind::Response);
    assert_eq!(classify_by(false, true), MessageKind::Notification);
    assert_eq!(classify_by(false, false), MessageKind::Malformed);
}

#[test]
fn cancellation_ends_every_loop_and_kills_once() {
    let mut kills = 0;
    for which in LOOPS {
        let step = on_signal(which, Signal::Received(BroadcastMessage::KillLsp));
        assert_eq!(step.control, Control::Stop, "{which:?}");
        for action in &step.actions {
            assert_eq!(action, &LoopAction::Kill);
            assert_eq!(which, SessionLoop::ProcessSupervisor);
            kills += 1;
        }
    }
    assert_eq!(kills, 1);
}

#[test]
fn lost_signal_fails_every_loop_without_a_kill() {
    for which in LOOPS {
        assert_eq!(
            on_signal(which, Signal::Lost),
            LoopStep {
                actions: vec![],
                control: Control::Abort(LspError::ChannelClosed)
            }
        );
    }
}

#[test]
fn stdin_writer_writes_payloads_as_they_are() {
    assert_eq!(
        stdin_writer_step(Some("Content-Length: 2\r\n\r\n{}".to_string())),
        LoopStep {
            actions: vec![
                LoopAction::Log(
                    Verbosity::Debug,
                    "server stdin: Content-Length: 2\r\n\r\n{}".to_string()
                ),
                LoopAction::Write("Content-Length: 2\r\n\r\n{}".to_string())
            ],
            control: Control::Continue
        }
    );
    assert_eq!(
        stdin_writer_step(None),
        LoopStep {
            actions: vec![],
            control: Control::Abort(LspError::ChannelClosed)
        }
    );
}

#[test]
fn stdout_reader_publishes_by_kind() {
    let response = br#"{"jsonrpc":"2.0","id":"1","result":1}"#.to_vec();
    assert_eq!(
        stdout_reader_step(Ok(response.clone())),
        LoopStep {
            actions: vec![
                LoopAction::LogBody(
                    Verbosity::Debug,
                    "server stdout: ".to_string(),
                    response.clone()
                ),
                LoopAction::PublishResponse(response)
            ],
            control: Control::Continue
        }
    );
    let notification = br#"{"jsonrpc":"2.0","method":"m","params":[]}"#.to_vec();
    assert_eq!(
        stdout_reader_step(Ok(notification.clone())).actions[1],
        LoopAction::PublishNotification(notification)
    );
}

#[test]
fn stdout_reader_drops_malformed_messages_and_goes_on() {
    let body = b"{\"neither\":true}".to_vec();
    assert_eq!(
        stdout_reader_step(Ok(body.clone())),
        LoopStep {
            actions: vec![
                LoopAction::LogBody(
                    Verbosity::Debug,
                    "server stdout: ".to_string(),
                    body.clone()
                ),
                LoopAction::LogBody(
                    Verbosity::Error,
                    "failed to deserialize server message: ".to_string(),
                    body
                )
            ],
            control: Control::Continue
        }
    );
}

#[test]
fn stdout_reader_fails_with_framing() {
    let error = LspError::Framing(FramingError {
        kind: FramingErrorKind::MissingSeparator,
        consumed: 4,
    });
    assert!(error.fatal());
    assert_eq!(
        stdout_reader_step(Err(error.clone())),
        LoopStep {
            actions: vec![],
            control: Control::Abort(error)
        }
    );
}

#[test]
fn stderr_forwarder_logs_lines_until_the_stream_ends() {
    assert_eq!(
        stderr_forwarder_step(Ok(Some("warning: x".to_string()))),
        LoopStep {
            actions: vec![LoopAction::Log(
                Verbosity::Debug,
                "server stderr: warning: x".to_string()
            )],
            control: Control::Continue
        }
    );
    assert_eq!(
        stderr_forwarder_step(Ok(None)),
        LoopStep {
            actions: vec![],
            control: Control::Stop
        }
    );
    assert_eq!(
        stderr_forwarder_step(Err(LspError::ChannelClosed)),
        LoopStep {
            actions: vec![],
            control: Control::Abort(LspError::ChannelClosed)
        }
    );
}
