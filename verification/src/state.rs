//! Check-in session state machine.
//!
//! One session runs linearly from scanning a QR code to a finished credential
//! write. The only transition this module derives on its own is
//! `Scanning -> AwaitingCredential`, triggered by the first decoded payload;
//! every other transition arrives as an external trigger (manual entry,
//! credential hardware events).

use vstd::prelude::*;

verus! {

/// Stage of the linear check-in flow. `Scanning` is the initial stage,
/// `Finished` is terminal.
#[derive(Clone, Copy, PartialEq, Eq, Structural, Debug)]
pub enum CheckInState {
    Scanning,
    ManualInput,
    AwaitingCredential,
    WritingCredential,
    Finished,
}

/// What one raster sample yielded: no grid at all, exactly one grid that
/// decoded to a payload, exactly one grid that would not decode, or an
/// ambiguous frame with two or more grids.
#[derive(Debug)]
pub enum ScanOutcome {
    NoGrids,
    Decoded(String),
    Undecodable,
    Ambiguous,
}

/// Mathematical model of a `ScanOutcome`.
pub ghost enum Scan {
    NoGrids,
    Decoded(Seq<char>),
    Undecodable,
    Ambiguous,
}

impl View for ScanOutcome {
    type V = Scan;

    open spec fn view(&self) -> Scan {
        match self {
            ScanOutcome::NoGrids => Scan::NoGrids,
            ScanOutcome::Decoded(s) => Scan::Decoded(s@),
            ScanOutcome::Undecodable => Scan::Undecodable,
            ScanOutcome::Ambiguous => Scan::Ambiguous,
        }
    }
}

/// Mathematical model of a `Session`: the current stage, the decoded payload
/// once set, and the transient error notice.
pub ghost struct SessionView {
    pub state: CheckInState,
    pub payload: Option<Seq<char>>,
    pub error: Option<Seq<char>>,
}

impl SessionView {
    /// A payload is only ever decoded while scanning, and setting it leaves
    /// the scanning stage at once; so a session that holds a payload is never
    /// still in `Scanning`.
    pub open spec fn inv(self) -> bool {
        self.payload is Some ==> self.state !is Scanning
    }
}

/// The fresh session: scanning, no payload, no error notice.
pub open spec fn initial_session() -> SessionView {
    SessionView { state: CheckInState::Scanning, payload: None, error: None }
}

/// The user-facing hint shown when a single detected grid fails to decode.
pub open spec fn retry_hint() -> Seq<char> {
    "try re-locating your qr code"@
}

/// How one scan outcome changes a session:
/// - no grid, or an ambiguous frame: no change at all;
/// - one grid that would not decode: only the error notice changes, to the
///   retry hint;
/// - one decoded payload: the payload is set if it was still null (and only
///   then), the error notice is cleared, and a session still scanning moves
///   to `AwaitingCredential`.
pub open spec fn scan_step(s: SessionView, o: Scan) -> SessionView {
    match o {
        Scan::NoGrids => s,
        Scan::Ambiguous => s,
        Scan::Undecodable => SessionView { error: Some(retry_hint()), ..s },
        Scan::Decoded(content) => SessionView {
            state: if s.payload is None && s.state is Scanning {
                CheckInState::AwaitingCredential
            } else {
                s.state
            },
            payload: if s.payload is None { Some(content) } else { s.payload },
            error: None,
        },
    }
}

/// The externally triggered transitions: manual entry is available while
/// scanning, a credential insertion while awaiting one, and a completed write
/// while writing. Any other combination of stage and trigger is ignored.
/// A transition that fires clears the error notice.
pub open spec fn manual_input_step(s: SessionView) -> SessionView {
    if s.state is Scanning {
        SessionView { state: CheckInState::ManualInput, error: None, ..s }
    } else {
        s
    }
}

pub open spec fn credential_inserted_step(s: SessionView) -> SessionView {
    if s.state is AwaitingCredential {
        SessionView { state: CheckInState::WritingCredential, error: None, ..s }
    } else {
        s
    }
}

pub open spec fn credential_written_step(s: SessionView) -> SessionView {
    if s.state is WritingCredential {
        SessionView { state: CheckInState::Finished, error: None, ..s }
    } else {
        s
    }
}

/// One check-in session.
pub struct Session {
    state: CheckInState,
    payload: Option<String>,
    error: Option<String>,
}

impl View for Session {
    type V = SessionView;

    closed spec fn view(&self) -> SessionView {
        SessionView {
            state: self.state,
            payload: self.payload.deep_view(),
            error: self.error.deep_view(),
        }
    }
}

impl Session {
    pub fn new() -> (s: Session)
        ensures
            s@ == initial_session(),
    {
        Session { state: CheckInState::Scanning, payload: None, error: None }
    }

    pub fn state(&self) -> (st: CheckInState)
        ensures
            st == self@.state,
    {
        self.state
    }

    pub fn payload(&self) -> (p: &Option<String>)
        ensures
            p.deep_view() == self@.payload,
    {
        &self.payload
    }

    pub fn error_notice(&self) -> (e: &Option<String>)
        ensures
            e.deep_view() == self@.error,
    {
        &self.error
    }

    /// Feed the session the outcome of one raster sample.
    pub fn apply_scan(&mut self, outcome: ScanOutcome)
        ensures
            final(self)@ == scan_step(old(self)@, outcome@),
    {
        match outcome {
            ScanOutcome::NoGrids => {}
            ScanOutcome::Ambiguous => {}
            ScanOutcome::Undecodable => {
                self.error = Some(String::from_str("try re-locating your qr code"));
            }
            ScanOutcome::Decoded(content) => {
                if self.payload.is_none() {
                    if self.state == CheckInState::Scanning {
                        self.state = CheckInState::AwaitingCredential;
                    }
                    self.payload = Some(content);
                }
                self.error = None;
            }
        }
    }

    /// The user asked to type an identifier instead of scanning.
    pub fn request_manual_input(&mut self)
        ensures
            final(self)@ == manual_input_step(old(self)@),
    {
        if self.state == CheckInState::Scanning {
            self.state = CheckInState::ManualInput;
            self.error = None;
        }
    }

    /// The credential hardware reported an inserted tag.
    pub fn credential_inserted(&mut self)
        ensures
            final(self)@ == credential_inserted_step(old(self)@),
    {
        if self.state == CheckInState::AwaitingCredential {
            self.state = CheckInState::WritingCredential;
            self.error = None;
        }
    }

    /// The credential hardware reported a completed write.
    pub fn credential_written(&mut self)
        ensures
            final(self)@ == credential_written_step(old(self)@),
    {
        if self.state == CheckInState::WritingCredential {
            self.state = CheckInState::Finished;
            self.error = None;
        }
    }
}

/// The status line shown for each stage of the flow.
pub open spec fn spec_status_line(state: CheckInState) -> Seq<char> {
    match state {
        CheckInState::Scanning => "Please put your QRCode below the camera"@,
        CheckInState::ManualInput => "Please input your user id"@,
        CheckInState::AwaitingCredential => "Please insert your rfid"@,
        CheckInState::WritingCredential => "Please wait, writing to rfid"@,
        CheckInState::Finished => "Congratulations! You have checked in successfully"@,
    }
}

pub fn status_line(state: CheckInState) -> (line: String)
    ensures
        line@ == spec_status_line(state),
{
    match state {
        CheckInState::Scanning => String::from_str("Please put your QRCode below the camera"),
        CheckInState::ManualInput => String::from_str("Please input your user id"),
        CheckInState::AwaitingCredential => String::from_str("Please insert your rfid"),
        CheckInState::WritingCredential => String::from_str("Please wait, writing to rfid"),
        CheckInState::Finished => String::from_str(
            "Congratulations! You have checked in successfully",
        ),
    }
}

} // verus!
