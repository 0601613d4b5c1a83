use kilo_executor::forward::{ForwarderAction, ForwarderEvent, ForwarderPhase, KiloOutputForwarder};

#[test]
fn prompt_newline_flush_then_read() {
    let (mut f, first) = KiloOutputForwarder::start("Fix the bug");
    assert!(matches!(first, ForwarderAction::WriteStdin(ref s) if s == "Fix the bug"));
    assert!(matches!(f.step(ForwarderEvent::StdinDone), ForwarderAction::WriteStdin(ref s) if s == "\n"));
    assert!(matches!(f.step(ForwarderEvent::StdinDone), ForwarderAction::FlushStdin));
    assert!(matches!(f.step(ForwarderEvent::StdinDone), ForwarderAction::CloseStdinAndRead));
    assert_eq!(f.current_phase(), ForwarderPhase::Reading);
}

fn reading() -> KiloOutputForwarder {
    let (mut f, _) = KiloOutputForwarder::start("p");
    f.step(ForwarderEvent::StdinDone);
    f.step(ForwarderEvent::StdinDone);
    f.step(ForwarderEvent::StdinDone);
    f
}

#[test]
fn output_lines_are_logged_one_by_one() {
    let mut f = reading();
    assert!(matches!(f.step(ForwarderEvent::LineRead("   \n".to_string())), ForwarderAction::ReadLine));
    let a = f.step(ForwarderEvent::LineRead("{\"type\":\"error\",\"message\":\"boom\"}\n".to_string()));
    assert!(matches!(a, ForwarderAction::WriteLog(ref s) if s == "[Error] boom"));
    assert!(matches!(f.step(ForwarderEvent::LogWritten), ForwarderAction::ReadLine));
    let b = f.step(ForwarderEvent::LineRead("npm notice\n".to_string()));
    assert!(matches!(b, ForwarderAction::WriteLog(ref s) if s == "npm notice"));
    assert!(matches!(f.step(ForwarderEvent::LogWritten), ForwarderAction::ReadLine));
    assert!(matches!(f.step(ForwarderEvent::EndOfOutput), ForwarderAction::Stop));
    assert_eq!(f.current_phase(), ForwarderPhase::Stopped);
}

#[test]
fn failed_log_write_stops() {
    let mut f = reading();
    f.step(ForwarderEvent::LineRead("x\n".to_string()));
    assert!(matches!(f.step(ForwarderEvent::LogFailed), ForwarderAction::Stop));
    assert!(!f.accepts(&ForwarderEvent::LineRead("y\n".to_string())));
}

#[test]
fn interrupt_stops_reading() {
    let mut f = reading();
    assert!(matches!(f.step(ForwarderEvent::Interrupted), ForwarderAction::Stop));
}

#[test]
fn stdin_failures_are_reported_by_step() {
    let (mut f, _) = KiloOutputForwarder::start("p");
    let a = f.step(ForwarderEvent::StdinFailed("Broken pipe (os error 32)".to_string()));
    assert!(matches!(a, ForwarderAction::WriteLogAndStop(ref s) if s == "Error: Failed to write prompt - Broken pipe (os error 32)"));

    let (mut f, _) = KiloOutputForwarder::start("p");
    f.step(ForwarderEvent::StdinDone);
    let b = f.step(ForwarderEvent::StdinFailed("e".to_string()));
    assert!(matches!(b, ForwarderAction::WriteLogAndStop(ref s) if s == "Error: Failed to write newline - e"));

    let (mut f, _) = KiloOutputForwarder::start("p");
    f.step(ForwarderEvent::StdinDone);
    f.step(ForwarderEvent::StdinDone);
    let c = f.step(ForwarderEvent::StdinFailed("e".to_string()));
    assert!(matches!(c, ForwarderAction::WriteLogAndStop(ref s) if s == "Error: Failed to flush stdin - e"));
}

#[test]
fn read_failure_is_logged() {
    let mut f = reading();
    let a = f.step(ForwarderEvent::ReadFailed("stream did not contain valid UTF-8".to_string()));
    assert!(matches!(a, ForwarderAction::WriteLogAndStop(ref s) if s == "Error reading output: stream did not contain valid UTF-8"));
    assert_eq!(f.current_phase(), ForwarderPhase::Stopped);
}

#[test]
fn events_answer_the_last_action_only() {
    let (f, _) = KiloOutputForwarder::start("p");
    assert!(f.accepts(&ForwarderEvent::StdinDone));
    assert!(!f.accepts(&ForwarderEvent::LogWritten));
    assert!(!f.accepts(&ForwarderEvent::EndOfOutput));
    let r = reading();
    assert!(r.accepts(&ForwarderEvent::EndOfOutput));
    assert!(!r.accepts(&ForwarderEvent::StdinDone));
}
