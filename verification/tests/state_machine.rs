use qr_checkin::state::{status_line, CheckInState, ScanOutcome, Session};

const RETRY_HINT: &str = "try re-locating your qr code";

fn decoded(text: &str) -> ScanOutcome {
    ScanOutcome::Decoded(String::from(text))
}

#[test]
fn fresh_session_is_scanning() {
    let s = Session::new();
    assert_eq!(s.state(), CheckInState::Scanning);
    assert!(s.payload().is_none());
    assert!(s.error_notice().is_none());
}

#[test]
fn scenario_two_quiet_frames_then_decode() {
    let mut s = Session::new();
    s.apply_scan(ScanOutcome::NoGrids);
    s.apply_scan(ScanOutcome::NoGrids);
    s.apply_scan(decoded("user:42"));
    assert_eq!(s.state(), CheckInState::AwaitingCredential);
    assert_eq!(s.payload().as_deref(), Some("user:42"));
    assert!(s.error_notice().is_none());
}

#[test]
fn scenario_undecodable_grid_sets_hint() {
    let mut s = Session::new();
    s.apply_scan(ScanOutcome::Undecodable);
    assert_eq!(s.state(), CheckInState::Scanning);
    assert_eq!(s.error_notice().as_deref(), Some(RETRY_HINT));
    assert!(s.payload().is_none());
}

#[test]
fn scenario_ambiguous_then_decode() {
    let mut s = Session::new();
    s.apply_scan(ScanOutcome::Ambiguous);
    assert_eq!(s.state(), CheckInState::Scanning);
    assert!(s.payload().is_none());
    assert!(s.error_notice().is_none());
    s.apply_scan(decoded("user:7"));
    assert_eq!(s.state(), CheckInState::AwaitingCredential);
    assert_eq!(s.payload().as_deref(), Some("user:7"));
}

#[test]
fn scenario_manual_input_is_not_overridden() {
    let mut s = Session::new();
    s.request_manual_input();
    assert_eq!(s.state(), CheckInState::ManualInput);
    s.apply_scan(decoded("user:42"));
    assert_eq!(s.state(), CheckInState::ManualInput);
}

#[test]
fn zero_grid_samples_are_idempotent() {
    let mut s = Session::new();
    s.apply_scan(ScanOutcome::Undecodable);
    for _ in 0..5 {
        s.apply_scan(ScanOutcome::NoGrids);
        assert_eq!(s.state(), CheckInState::Scanning);
        assert!(s.payload().is_none());
        assert_eq!(s.error_notice().as_deref(), Some(RETRY_HINT));
    }
}

#[test]
fn payload_is_set_only_once() {
    let mut s = Session::new();
    s.apply_scan(decoded("first"));
    s.apply_scan(decoded("second"));
    assert_eq!(s.payload().as_deref(), Some("first"));
    assert_eq!(s.state(), CheckInState::AwaitingCredential);
}

#[test]
fn successful_decode_clears_error_notice() {
    let mut s = Session::new();
    s.apply_scan(ScanOutcome::Undecodable);
    assert!(s.error_notice().is_some());
    s.apply_scan(decoded("user:1"));
    assert!(s.error_notice().is_none());
}

#[test]
fn ambiguous_frame_keeps_error_notice() {
    let mut s = Session::new();
    s.apply_scan(ScanOutcome::Undecodable);
    s.apply_scan(ScanOutcome::Ambiguous);
    assert_eq!(s.error_notice().as_deref(), Some(RETRY_HINT));
}

#[test]
fn manual_input_clears_error_notice() {
    let mut s = Session::new();
    s.apply_scan(ScanOutcome::Undecodable);
    s.request_manual_input();
    assert_eq!(s.state(), CheckInState::ManualInput);
    assert!(s.error_notice().is_none());
}

#[test]
fn credential_flow_runs_to_finished() {
    let mut s = Session::new();
    s.apply_scan(decoded("user:9"));
    assert_eq!(s.state(), CheckInState::AwaitingCredential);
    s.credential_inserted();
    assert_eq!(s.state(), CheckInState::WritingCredential);
    s.credential_written();
    assert_eq!(s.state(), CheckInState::Finished);
}

#[test]
fn triggers_in_wrong_stage_are_ignored() {
    let mut s = Session::new();
    s.credential_inserted();
    assert_eq!(s.state(), CheckInState::Scanning);
    s.credential_written();
    assert_eq!(s.state(), CheckInState::Scanning);
    s.apply_scan(decoded("user:3"));
    s.request_manual_input();
    assert_eq!(s.state(), CheckInState::AwaitingCredential);
}

#[test]
fn status_lines_match_each_stage() {
    assert_eq!(
        status_line(CheckInState::Scanning),
        "Please put your QRCode below the camera"
    );
    assert_eq!(status_line(CheckInState::ManualInput), "Please input your user id");
    assert_eq!(status_line(CheckInState::AwaitingCredential), "Please insert your rfid");
    assert_eq!(status_line(CheckInState::WritingCredential), "Please wait, writing to rfid");
    assert_eq!(
        status_line(CheckInState::Finished),
        "Congratulations! You have checked in successfully"
    );
}
