use rtty::args::{LogLevel, RttydArgs};
use rtty::bridge::{BridgeAction, BridgeState, PeerMessage, SessionBridge};
use rtty::command::{
    aborted_message, exit_message, AbortSignal, CommandInputItem, CommandOutputItem, InputPump,
    OutputPump, PtyAction, PtyEvent, TermSize,
};
use rtty::decimal::{parse_u16, push_int_digits};
use rtty::protocol::{
    decode_binary_message, decode_text_message, encode_exit, encode_output_text,
    parse_text_frame, TextFrame,
};

fn run_pump(pump: &mut OutputPump, evs: Vec<PtyEvent>) -> (Vec<CommandOutputItem>, usize) {
    let mut out = Vec::new();
    let mut kills = 0;
    for e in evs {
        let s = pump.step(e);
        if s.kill {
            kills += 1;
        }
        if let Some(i) = s.item {
            out.push(i);
        }
    }
    (out, kills)
}

fn data_of(items: &[CommandOutputItem]) -> Vec<Vec<u8>> {
    items
        .iter()
        .filter_map(|i| match i {
            CommandOutputItem::Output(b) => Some(b.clone()),
            _ => None,
        })
        .collect()
}

fn exits_of(items: &[CommandOutputItem]) -> Vec<String> {
    items
        .iter()
        .filter_map(|i| match i {
            CommandOutputItem::Exit(s) => Some(s.clone()),
            _ => None,
        })
        .collect()
}

#[test]
fn chunks_in_order_then_one_exit() {
    let mut pump = OutputPump::new();
    let (out, kills) = run_pump(
        &mut pump,
        vec![
            PtyEvent::Chunk(b"ab".to_vec()),
            PtyEvent::Chunk(b"c".to_vec()),
            PtyEvent::Chunk(b"de".to_vec()),
            PtyEvent::Exited(Some(3)),
            PtyEvent::Chunk(b"late".to_vec()),
            PtyEvent::Exited(Some(4)),
        ],
    );
    assert_eq!(data_of(&out), vec![b"ab".to_vec(), b"c".to_vec(), b"de".to_vec()]);
    assert_eq!(exits_of(&out), vec!["Command exited with status code: 3".to_string()]);
    assert!(matches!(out.last(), Some(CommandOutputItem::Exit(_))));
    assert_eq!(kills, 0);
    assert!(pump.is_finished());
}

#[test]
fn read_errors_warn_or_vanish() {
    let mut pump = OutputPump::new();
    let (out, _) = run_pump(
        &mut pump,
        vec![
            PtyEvent::ReadFailed(Some(5), "Input/output error (os error 5)".to_string()),
            PtyEvent::ReadFailed(Some(11), "Resource temporarily unavailable".to_string()),
            PtyEvent::ReadFailed(None, "other".to_string()),
            PtyEvent::Chunk(b"x".to_vec()),
        ],
    );
    assert_eq!(out.len(), 3);
    assert!(matches!(&out[0], CommandOutputItem::Error(m) if m == "Resource temporarily unavailable"));
    assert!(matches!(&out[1], CommandOutputItem::Error(m) if m == "other"));
    assert!(matches!(&out[2], CommandOutputItem::Output(b) if b == b"x"));
    assert!(!pump.is_finished());
}

#[test]
fn wait_failure_ends_the_pump() {
    let mut pump = OutputPump::new();
    let (out, kills) = run_pump(
        &mut pump,
        vec![PtyEvent::WaitFailed("no child".to_string()), PtyEvent::Abort],
    );
    assert_eq!(exits_of(&out), vec!["no child".to_string()]);
    assert_eq!(out.len(), 1);
    assert_eq!(kills, 0);
}

#[test]
fn abort_while_running_kills_once() {
    let mut pump = OutputPump::new();
    let (out, kills) = run_pump(
        &mut pump,
        vec![
            PtyEvent::Chunk(b"partial".to_vec()),
            PtyEvent::Abort,
            PtyEvent::Exited(Some(137)),
        ],
    );
    assert_eq!(data_of(&out), vec![b"partial".to_vec()]);
    assert_eq!(exits_of(&out), vec!["Aborted".to_string()]);
    assert_eq!(kills, 1);
}

#[test]
fn abort_twice_same_as_once() {
    let mut once = OutputPump::new();
    let (a, ka) = run_pump(&mut once, vec![PtyEvent::Chunk(b"z".to_vec()), PtyEvent::Abort]);
    let mut twice = OutputPump::new();
    let (b, kb) = run_pump(
        &mut twice,
        vec![PtyEvent::Chunk(b"z".to_vec()), PtyEvent::Abort, PtyEvent::Abort],
    );
    assert_eq!(data_of(&a), data_of(&b));
    assert_eq!(exits_of(&a), exits_of(&b));
    assert_eq!(exits_of(&b), vec!["Aborted".to_string()]);
    assert_eq!((ka, kb), (1, 1));

    let mut sig = AbortSignal::new();
    assert!(!sig.is_fired());
    assert!(sig.fire());
    assert!(!sig.fire());
    assert!(sig.is_fired());
}

#[test]
fn resize_applied_before_write() {
    let mut pump = InputPump::new();
    let first = pump.on_command(CommandInputItem::Resize(TermSize::new(24, 80)));
    let second = pump.on_command(CommandInputItem::Input(b"ls\n".to_vec()));
    assert!(matches!(first, Some(PtyAction::Resize(TermSize { rows: 24, cols: 80 }))));
    assert!(matches!(second, Some(PtyAction::Write(ref b)) if b == b"ls\n"));
}

#[test]
fn text_input_is_written_as_utf8_and_stops_at_end() {
    let mut pump = InputPump::new();
    let a = pump.on_command(CommandInputItem::InputString("héllo".to_string()));
    assert!(matches!(a, Some(PtyAction::Write(ref b)) if b == "héllo".as_bytes()));
    pump.on_session_end();
    assert!(pump.is_stopped());
    assert!(pump.on_command(CommandInputItem::Input(b"x".to_vec())).is_none());
}

#[test]
fn decode_resize_raw_and_text() {
    assert!(matches!(
        decode_text_message("2;40;120"),
        Some(CommandInputItem::Resize(TermSize { rows: 40, cols: 120 }))
    ));
    assert!(matches!(decode_text_message("0;aGVsbG8="), Some(CommandInputItem::Input(ref b)) if b == b"hello"));
    assert!(matches!(decode_text_message("1;echo hi"), Some(CommandInputItem::InputString(ref s)) if s == "echo hi"));
    assert!(decode_text_message("9;whatever").is_none());
    assert!(decode_text_message("").is_none());
    assert!(decode_text_message("0").is_none());
}

#[test]
fn decode_malformed_frames() {
    assert!(decode_text_message("0;not base64!").is_none());
    assert!(decode_text_message("2;40").is_none());
    assert!(decode_text_message("2;;120").is_none());
    assert!(decode_text_message("2;40;").is_none());
    assert!(decode_text_message("2;4x;120").is_none());
    assert!(decode_text_message("2;70000;1").is_none());
    assert!(matches!(
        decode_text_message("2;65535;0;extra"),
        Some(CommandInputItem::Resize(TermSize { rows: 65535, cols: 0 }))
    ));
    assert!(matches!(decode_text_message("1;"), Some(CommandInputItem::InputString(ref s)) if s.is_empty()));
    assert!(matches!(decode_text_message("0;"), Some(CommandInputItem::Input(ref b)) if b.is_empty()));
}

#[test]
fn frames_read_without_decoding() {
    assert!(matches!(parse_text_frame("0;aGVsbG8="), TextFrame::Base64(ref s) if s == "aGVsbG8="));
    assert!(matches!(parse_text_frame("1;ü;x"), TextFrame::Text(ref s) if s == "ü;x"));
    assert!(matches!(parse_text_frame("2;1;2"), TextFrame::Resize(TermSize { rows: 1, cols: 2 })));
    assert!(matches!(parse_text_frame("3;1;2"), TextFrame::Unknown));
    assert!(matches!(parse_text_frame("ü;"), TextFrame::Unknown));
}

#[test]
fn binary_frames_are_raw_input() {
    assert!(matches!(decode_binary_message(vec![0, 255, 10]), CommandInputItem::Input(ref b) if b == &vec![0, 255, 10]));
}

#[test]
fn encodings_to_the_peer() {
    assert_eq!(encode_output_text(b"hello"), "0;aGVsbG8=");
    assert_eq!(encode_output_text(b""), "0;");
    assert_eq!(encode_exit("Aborted"), "1;Aborted");
}

#[test]
fn decimal_numbers() {
    assert_eq!(parse_u16("0"), Some(0));
    assert_eq!(parse_u16("00120"), Some(120));
    assert_eq!(parse_u16("65535"), Some(65535));
    assert_eq!(parse_u16("65536"), None);
    assert_eq!(parse_u16("99999999999"), None);
    assert_eq!(parse_u16(""), None);
    assert_eq!(parse_u16("+1"), None);
    assert_eq!(parse_u16("-1"), None);
    let mut s = String::from("n=");
    push_int_digits(&mut s, -2147483648);
    assert_eq!(s, "n=-2147483648");
    let mut t = String::new();
    push_int_digits(&mut t, 907);
    assert_eq!(t, "907");
}

#[test]
fn exit_summaries() {
    assert_eq!(exit_message(Some(0)), "Command exited with status code: 0");
    assert_eq!(exit_message(Some(127)), "Command exited with status code: 127");
    assert_eq!(exit_message(Some(-1)), "Command exited with status code: -1");
    assert_eq!(exit_message(None), "Command exited with status code: 0");
    assert_eq!(aborted_message(), "Aborted");
}

#[test]
fn short_command_prints_ok_and_exits() {
    let mut out_pump = OutputPump::new();
    let mut in_pump = InputPump::new();
    let (out, kills) = run_pump(
        &mut out_pump,
        vec![PtyEvent::Chunk(b"ok".to_vec()), PtyEvent::Exited(Some(0))],
    );
    in_pump.on_session_end();
    assert_eq!(out.len(), 2);
    assert!(matches!(&out[0], CommandOutputItem::Output(b) if b == b"ok"));
    assert!(matches!(&out[1], CommandOutputItem::Exit(s) if s == "Command exited with status code: 0"));
    assert_eq!(kills, 0);
    assert!(in_pump.is_stopped());

    let mut bridge = SessionBridge::new(true);
    let mut sent = Vec::new();
    for i in out {
        if let Some(a) = bridge.on_output(i) {
            sent.push(a);
        }
    }
    assert!(matches!(&sent[0], BridgeAction::SendBinary(b) if b == b"ok"));
    assert!(matches!(&sent[1], BridgeAction::SendText(s) if s == "1;Command exited with status code: 0"));
    assert_eq!(bridge.state(), BridgeState::Draining);
    assert!(!bridge.aborted());
    assert!(bridge.on_peer(PeerMessage::Binary(b"x".to_vec())).is_none());
    bridge.on_final_sent();
    assert_eq!(bridge.state(), BridgeState::Closed);
}

#[test]
fn connection_closed_mid_session_aborts() {
    let mut bridge = SessionBridge::new(true);
    let mut pump = OutputPump::new();
    let a = pump.step(PtyEvent::Chunk(b"running".to_vec()));
    assert!(matches!(bridge.on_output(a.item.unwrap()), Some(BridgeAction::SendBinary(_))));
    let act = bridge.on_peer(PeerMessage::Ended);
    assert!(matches!(act, Some(BridgeAction::Abort)));
    assert!(bridge.aborted());
    assert_eq!(bridge.state(), BridgeState::Closed);
    let s = pump.step(PtyEvent::Abort);
    assert!(s.kill);
    assert!(matches!(s.item, Some(CommandOutputItem::Exit(ref m)) if m == "Aborted"));
    assert!(pump.is_finished());
    assert!(bridge.on_output(s.item.unwrap()).is_none());
    assert!(bridge.on_peer(PeerMessage::Close).is_none());
}

#[test]
fn peer_messages_while_running() {
    let mut bridge = SessionBridge::new(false);
    assert!(matches!(bridge.on_peer(PeerMessage::Text("1;ls".to_string())), Some(BridgeAction::Forward(CommandInputItem::InputString(ref s))) if s == "ls"));
    assert!(matches!(bridge.on_peer(PeerMessage::Text("hello".to_string())), Some(BridgeAction::Warn(ref s)) if s == "hello"));
    assert!(matches!(bridge.on_peer(PeerMessage::Ping(vec![1, 2])), Some(BridgeAction::SendPong(ref b)) if b == &vec![1, 2]));
    assert!(bridge.on_peer(PeerMessage::Pong).is_none());
    assert!(matches!(bridge.on_output(CommandOutputItem::Output(b"hello".to_vec())), Some(BridgeAction::SendText(ref s)) if s == "0;aGVsbG8="));
    assert!(matches!(bridge.on_output(CommandOutputItem::Error("oops".to_string())), Some(BridgeAction::Warn(ref s)) if s == "oops"));
    assert_eq!(bridge.state(), BridgeState::Running);
    assert!(matches!(bridge.on_peer(PeerMessage::Failed("reset".to_string())), Some(BridgeAction::Abort)));
    assert!(bridge.aborted());
}

#[test]
fn server_settings() {
    let mut a = RttydArgs {
        verbosity: "debug".to_string(),
        host: "127.0.0.1".to_string(),
        port: 28888,
        command: "bash".to_string(),
    };
    assert_eq!(a.log_level(), LogLevel::Debug);
    assert_eq!(a.listen_address(), "127.0.0.1:28888");
    assert_eq!(a.launch_argv(), vec!["sh".to_string(), "-c".to_string(), "bash".to_string()]);
    a.verbosity = "loud".to_string();
    assert_eq!(a.log_level(), LogLevel::Info);
    a.verbosity = "error".to_string();
    assert_eq!(a.log_level(), LogLevel::Error);
    a.port = 0;
    assert_eq!(a.listen_address(), "127.0.0.1:0");
}
