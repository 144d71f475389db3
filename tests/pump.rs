use terminal_plugin::pump::{
    pump_step, ssh_pump_step, ChannelEvent, Notice, OutputReaderConfig, PumpControl, ReadOutcome,
};
use terminal_plugin::status::SessionStatus;

fn methods(v: &[Notice]) -> Vec<&'static str> {
    v.iter().map(|n| n.method()).collect()
}

#[test]
fn test_output_reader_with_data() {
    let osc = OutputReaderConfig::default().osc_handler();
    let (notices, next) = pump_step("test-session", &osc, ReadOutcome::Data(b"Hello, World!".to_vec()));
    assert!(!notices.is_empty(), "Should receive output notification");
    assert_eq!(notices[0].method(), "terminal.output");
    assert_eq!(next, PumpControl::Continue);
}

#[test]
fn test_output_reader_eof() {
    let osc = OutputReaderConfig::default().osc_handler();
    let (notices, next) = pump_step("test-session", &osc, ReadOutcome::Data(Vec::new()));
    assert!(!notices.is_empty(), "Should receive status notification");
    assert_eq!(notices[0].method(), "session.status");
    assert_eq!(next, PumpControl::Exit);
}

#[test]
fn test_output_reader_with_osc7() {
    let osc = OutputReaderConfig::default().osc_handler();
    let data = b"before\x1b]7;file://localhost/home/user\x07after".to_vec();
    let (notices, _) = pump_step("test-session", &osc, ReadOutcome::Data(data));
    let cwd = notices.iter().find(|n| n.method() == "session.cwd");
    assert!(cwd.is_some(), "Should receive cwd notification");
    match cwd.unwrap() {
        Notice::Cwd(n) => assert_eq!(n.cwd, "/home/user"),
        _ => unreachable!(),
    }
    let output = notices.iter().find(|n| n.method() == "terminal.output");
    assert!(output.is_some(), "Should receive output notification");
}

#[test]
fn test_output_reader_with_osc52() {
    let osc = OutputReaderConfig::default().osc_handler();
    let data = b"text\x1b]52;c;SGVsbG8=\x07more".to_vec();
    let (notices, _) = pump_step("test-session", &osc, ReadOutcome::Data(data));
    let clip = notices.iter().find(|n| n.method() == "session.clipboard");
    assert!(clip.is_some(), "Should receive clipboard notification");
    match clip.unwrap() {
        Notice::Clipboard(n) => assert_eq!(n.content, "Hello"),
        _ => unreachable!(),
    }
}

#[test]
fn test_output_reader_osc_disabled() {
    let mut config = OutputReaderConfig::default();
    config.enable_osc_processing = false;
    let osc = config.osc_handler();
    let data = b"before\x1b]7;file://localhost/home/user\x07after".to_vec();
    let (notices, _) = pump_step("test-session", &osc, ReadOutcome::Data(data));
    assert!(notices.iter().find(|n| n.method() == "session.cwd").is_none());
    assert!(notices.iter().find(|n| n.method() == "terminal.output").is_some());
}

#[test]
fn output_is_base64_of_the_stripped_bytes() {
    let osc = OutputReaderConfig::default().osc_handler();
    let (notices, _) = pump_step("s", &osc, ReadOutcome::Data(b"Hello, World!".to_vec()));
    match &notices[0] {
        Notice::Output(n) => {
            assert_eq!(n.session_id, "s");
            assert_eq!(n.data, "SGVsbG8sIFdvcmxkIQ==");
        }
        _ => panic!("expected output"),
    }
    let data = b"before\x1b]7;/x\x07after".to_vec();
    let (notices, _) = pump_step("s", &osc, ReadOutcome::Data(data));
    assert_eq!(methods(&notices), vec!["session.cwd", "terminal.output"]);
    match &notices[1] {
        // base64 of "beforeafter"
        Notice::Output(n) => assert_eq!(n.data, "YmVmb3JlYWZ0ZXI="),
        _ => panic!("expected output"),
    }
}

#[test]
fn chunk_that_is_only_a_sequence_sends_no_output() {
    let osc = OutputReaderConfig::default().osc_handler();
    let (notices, next) = pump_step("s", &osc, ReadOutcome::Data(b"\x1b]7;/tmp\x07".to_vec()));
    assert_eq!(methods(&notices), vec!["session.cwd"]);
    assert_eq!(next, PumpControl::Continue);
}

#[test]
fn non_utf8_chunk_passes_through() {
    let osc = OutputReaderConfig::default().osc_handler();
    let (notices, _) = pump_step("s", &osc, ReadOutcome::Data(vec![0xff, 0x1b, b']', b'7', b';', b'/', 0x07]));
    assert_eq!(methods(&notices), vec!["terminal.output"]);
    match &notices[0] {
        Notice::Output(n) => assert_eq!(n.data, "/xtdNzsvBw=="),
        _ => panic!("expected output"),
    }
}

#[test]
fn eof_and_failure_report_status() {
    let osc = None;
    let (notices, next) = pump_step("s", &osc, ReadOutcome::Data(Vec::new()));
    assert_eq!(next, PumpControl::Exit);
    match &notices[0] {
        Notice::Status(n) => {
            assert_eq!(n.status, SessionStatus::Done);
            assert_eq!(n.exit_code, Some(0));
        }
        _ => panic!("expected status"),
    }
    let (notices, next) = pump_step("s", &osc, ReadOutcome::Failed);
    assert_eq!(next, PumpControl::Exit);
    match &notices[0] {
        Notice::Status(n) => {
            assert_eq!(n.status, SessionStatus::Error);
            assert_eq!(n.exit_code, None);
        }
        _ => panic!("expected status"),
    }
    let (notices, next) = pump_step("s", &osc, ReadOutcome::WouldBlock);
    assert!(notices.is_empty());
    assert_eq!(next, PumpControl::SleepThenContinue);
    let (notices, next) = pump_step("s", &osc, ReadOutcome::Interrupted);
    assert!(notices.is_empty());
    assert_eq!(next, PumpControl::Continue);
}

#[test]
fn default_pump_configuration() {
    let c = OutputReaderConfig::default();
    assert_eq!(c.buffer_size, 4096);
    assert_eq!(c.read_timeout_ms, 100);
    assert!(c.enable_osc_processing);
    assert_eq!(c.max_clipboard_size, 1048576);
    assert_eq!(c.osc_handler().unwrap().max_clipboard_size(), 1048576);
}

#[test]
fn ssh_channel_events() {
    let (n, next) = ssh_pump_step("s", ChannelEvent::Data(b"hi".to_vec()));
    assert_eq!(next, PumpControl::Continue);
    match &n[0] {
        Notice::Output(o) => assert_eq!(o.data, "aGk="),
        _ => panic!("expected output"),
    }
    let (n, _) = ssh_pump_step("s", ChannelEvent::ExtendedData(b"err".to_vec()));
    assert_eq!(methods(&n), vec!["terminal.output"]);
    let (n, next) = ssh_pump_step("s", ChannelEvent::ExitStatus(3));
    assert_eq!(next, PumpControl::Exit);
    match &n[0] {
        Notice::Status(s) => {
            assert_eq!(s.status, SessionStatus::Done);
            assert_eq!(s.exit_code, Some(3));
        }
        _ => panic!("expected status"),
    }
    for e in [ChannelEvent::Eof, ChannelEvent::Close, ChannelEvent::Disconnected] {
        let (n, next) = ssh_pump_step("s", e);
        assert!(n.is_empty());
        assert_eq!(next, PumpControl::Exit);
    }
    let (n, next) = ssh_pump_step("s", ChannelEvent::Other);
    assert!(n.is_empty());
    assert_eq!(next, PumpControl::Continue);
}
