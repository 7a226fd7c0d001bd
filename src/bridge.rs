//! The commands as sessions: each command is a sequence of platform steps,
//! and a session decides, from the outcome of the step just performed, which
//! step comes next or how the command ends.
use vstd::prelude::*;
use crate::pill::{PillSize, spec_recording_size, spec_transcript_size};

verus! {

/// How long the paste waits, after the window is hidden, for the focus to
/// return to the application that had it before.
pub const PASTE_DELAY_MS: u64 = 150;

/// Why a command failed.
#[derive(Debug, PartialEq, Eq)]
pub enum BridgeError {
    /// The main window does not exist.
    ResourceNotFound,
    /// The clipboard refused the text; the platform's message.
    ClipboardWriteFailed(String),
    /// Resizing, centring, showing or hiding the window failed; the platform's message.
    WindowOperationFailed(String),
    /// The paste helper could not be started; the platform's message.
    HelperLaunchFailed(String),
    /// The paste helper ran and reported failure; its diagnostic output.
    ExternalHelperFailed(String),
}

/// The text a caller is shown for each error.
pub open spec fn spec_message(e: BridgeError) -> Seq<char> {
    match e {
        BridgeError::ResourceNotFound => "main window not found"@,
        BridgeError::ClipboardWriteFailed(m) => m@,
        BridgeError::WindowOperationFailed(m) => m@,
        BridgeError::HelperLaunchFailed(m) => "Process error: "@ + m@,
        BridgeError::ExternalHelperFailed(d) => d@,
    }
}

impl BridgeError {
    /// The text a caller is shown for this error.
    pub fn message(&self) -> (r: String)
        ensures
            r@ == spec_message(*self),
    {
        match self {
            BridgeError::ResourceNotFound => String::from_str("main window not found"),
            BridgeError::ClipboardWriteFailed(m) => m.clone(),
            BridgeError::WindowOperationFailed(m) => m.clone(),
            BridgeError::HelperLaunchFailed(m) => String::from_str("Process error: ").concat(
                m.as_str(),
            ),
            BridgeError::ExternalHelperFailed(d) => d.clone(),
        }
    }

    /// An equal copy of this error.
    pub fn duplicate(&self) -> (r: BridgeError)
        ensures
            r == *self,
    {
        match self {
            BridgeError::ResourceNotFound => BridgeError::ResourceNotFound,
            BridgeError::ClipboardWriteFailed(m) => BridgeError::ClipboardWriteFailed(m.clone()),
            BridgeError::WindowOperationFailed(m) => BridgeError::WindowOperationFailed(m.clone()),
            BridgeError::HelperLaunchFailed(m) => BridgeError::HelperLaunchFailed(m.clone()),
            BridgeError::ExternalHelperFailed(d) => BridgeError::ExternalHelperFailed(d.clone()),
        }
    }
}

/// The commands the frontend can invoke on the window and the clipboard.
#[derive(Clone, Copy, Debug, PartialEq, Eq, Structural)]
pub enum Command {
    ShowRecordingPill,
    ShowTranscriptPill,
    HideRecordingPill,
    CopyAndPasteText,
}

/// A step the host performs for a session, or the end of the command.
#[derive(Debug, PartialEq, Eq)]
pub enum Action {
    /// Find the main window by its label.
    LookUpMainWindow,
    ResizeWindow(PillSize),
    CenterWindow,
    ShowWindow,
    HideWindow,
    /// Put exactly this text on the clipboard.
    WriteClipboard(String),
    /// Block for this many milliseconds.
    Wait(u64),
    /// Run the platform's helper that sends the paste keystroke.
    SendPasteKeystroke,
    /// The command is over, with this result.
    Finish(Result<(), BridgeError>),
}

/// What the host reports after performing a step.
#[derive(Debug, PartialEq, Eq)]
pub enum Outcome {
    /// The lookup found the main window.
    WindowPresent,
    /// The lookup found no main window.
    WindowAbsent,
    /// The step was carried out.
    Completed,
    /// The platform refused the step, with its message.
    Failed(String),
    /// The paste helper ran to its end; whether its exit status was success,
    /// and what it printed on its error stream.
    HelperExited { success: bool, diagnostics: String },
}

/// Where a session stands: the step it waits on, or how it ended.
#[derive(Debug, PartialEq, Eq)]
pub enum Stage {
    WritingClipboard,
    LookingUp,
    Resizing,
    Centering,
    Showing,
    Hiding,
    Waiting,
    Pasting,
    Done(Result<(), BridgeError>),
}

/// One invocation of a command in progress.
#[derive(Debug, PartialEq, Eq)]
pub struct Session {
    pub command: Command,
    /// The text a copy-and-paste puts on the clipboard; empty for the others.
    pub text: String,
    /// Whether this platform has a paste helper; without one the paste ends
    /// once the text is on the clipboard and the delay has passed.
    pub paste_supported: bool,
    pub stage: Stage,
}

/// The size a show command gives the window.
pub open spec fn target_size(c: Command) -> PillSize {
    if c is ShowTranscriptPill {
        spec_transcript_size()
    } else {
        spec_recording_size()
    }
}

pub open spec fn first_stage(c: Command) -> Stage {
    if c is CopyAndPasteText {
        Stage::WritingClipboard
    } else {
        Stage::LookingUp
    }
}

/// What the host is asked to do when session `s` stands at its stage.
pub open spec fn request(s: Session) -> Action {
    match s.stage {
        Stage::WritingClipboard => Action::WriteClipboard(s.text),
        Stage::LookingUp => Action::LookUpMainWindow,
        Stage::Resizing => Action::ResizeWindow(target_size(s.command)),
        Stage::Centering => Action::CenterWindow,
        Stage::Showing => Action::ShowWindow,
        Stage::Hiding => Action::HideWindow,
        Stage::Waiting => Action::Wait(PASTE_DELAY_MS),
        Stage::Pasting => Action::SendPasteKeystroke,
        Stage::Done(r) => Action::Finish(r),
    }
}

/// The error with which outcome `o` of the step at `s.stage` ends the command,
/// if it does. A missing window ends every command but the copy-and-paste,
/// which only skips hiding it.
pub open spec fn step_error(s: Session, o: Outcome) -> Option<BridgeError> {
    match s.stage {
        Stage::LookingUp => if o is WindowPresent || s.command is CopyAndPasteText {
            None
        } else {
            Some(BridgeError::ResourceNotFound)
        },
        Stage::WritingClipboard => match o {
            Outcome::Failed(m) => Some(BridgeError::ClipboardWriteFailed(m)),
            _ => None,
        },
        Stage::Resizing | Stage::Centering | Stage::Showing | Stage::Hiding => match o {
            Outcome::Failed(m) => Some(BridgeError::WindowOperationFailed(m)),
            _ => None,
        },
        Stage::Pasting => match o {
            Outcome::Failed(m) => Some(BridgeError::HelperLaunchFailed(m)),
            Outcome::HelperExited { success, diagnostics } => if success {
                None
            } else {
                Some(BridgeError::ExternalHelperFailed(diagnostics))
            },
            _ => None,
        },
        _ => None,
    }
}

/// The stage after the step at `s.stage` succeeded; `present` is whether a
/// lookup found the window.
pub open spec fn following(s: Session, present: bool) -> Stage {
    match s.stage {
        Stage::WritingClipboard => Stage::LookingUp,
        Stage::LookingUp => if s.command is CopyAndPasteText {
            if present {
                Stage::Hiding
            } else {
                Stage::Waiting
            }
        } else if s.command is HideRecordingPill {
            Stage::Hiding
        } else {
            Stage::Resizing
        },
        Stage::Resizing => Stage::Centering,
        Stage::Centering => Stage::Showing,
        Stage::Hiding => if s.command is CopyAndPasteText {
            Stage::Waiting
        } else {
            Stage::Done(Ok(()))
        },
        Stage::Waiting => if s.paste_supported {
            Stage::Pasting
        } else {
            Stage::Done(Ok(()))
        },
        Stage::Showing | Stage::Pasting => Stage::Done(Ok(())),
        Stage::Done(r) => Stage::Done(r),
    }
}

/// The stage a session moves to on outcome `o`.
pub open spec fn next_stage(s: Session, o: Outcome) -> Stage {
    match step_error(s, o) {
        Some(e) => Stage::Done(Err(e)),
        None => following(s, o is WindowPresent),
    }
}

/// A new session of command `c`, with its first request.
pub open spec fn spec_start(c: Command, text: String, paste_supported: bool) -> (Session, Action) {
    let s = Session { command: c, text, paste_supported, stage: first_stage(c) };
    (s, request(s))
}

/// The session after outcome `o`, with its next request.
pub open spec fn spec_advance(s: Session, o: Outcome) -> (Session, Action) {
    let t = Session { stage: next_stage(s, o), ..s };
    (t, request(t))
}

fn copy_result(r: &Result<(), BridgeError>) -> (c: Result<(), BridgeError>)
    ensures
        c == *r,
{
    match r {
        Ok(u) => Ok(*u),
        Err(e) => Err(e.duplicate()),
    }
}

impl Session {
    fn start(command: Command, text: String, paste_supported: bool) -> (r: (Session, Action))
        ensures
            r == spec_start(command, text, paste_supported),
    {
        let stage = match command {
            Command::CopyAndPasteText => Stage::WritingClipboard,
            _ => Stage::LookingUp,
        };
        let s = Session { command, text, paste_supported, stage };
        let a = s.request();
        (s, a)
    }

    /// Starts showing the pill at its recording size: look the window up,
    /// resize it, centre it, show it.
    pub fn show_recording_pill() -> (r: (Session, Action))
        ensures
            r == spec_start(Command::ShowRecordingPill, r.0.text, false),
            r.0.text@.len() == 0,
            r.1 is LookUpMainWindow,
    {
        Session::start(Command::ShowRecordingPill, String::new(), false)
    }

    /// Starts showing the pill at its transcript size.
    pub fn show_transcript_pill() -> (r: (Session, Action))
        ensures
            r == spec_start(Command::ShowTranscriptPill, r.0.text, false),
            r.0.text@.len() == 0,
            r.1 is LookUpMainWindow,
    {
        Session::start(Command::ShowTranscriptPill, String::new(), false)
    }

    /// Starts hiding the pill.
    pub fn hide_recording_pill() -> (r: (Session, Action))
        ensures
            r == spec_start(Command::HideRecordingPill, r.0.text, false),
            r.0.text@.len() == 0,
            r.1 is LookUpMainWindow,
    {
        Session::start(Command::HideRecordingPill, String::new(), false)
    }

    /// Starts committing `text`: clipboard first, then hiding the window if
    /// there is one, the delay, and the paste keystroke where the platform
    /// has a helper for it.
    pub fn copy_and_paste_text(text: String, paste_supported: bool) -> (r: (Session, Action))
        ensures
            r == spec_start(Command::CopyAndPasteText, text, paste_supported),
            r.1 == Action::WriteClipboard(text),
    {
        Session::start(Command::CopyAndPasteText, text, paste_supported)
    }

    /// What the host is asked to do at the current stage.
    pub fn request(&self) -> (a: Action)
        ensures
            a == request(*self),
    {
        match &self.stage {
            Stage::WritingClipboard => Action::WriteClipboard(self.text.clone()),
            Stage::LookingUp => Action::LookUpMainWindow,
            Stage::Resizing => match self.command {
                Command::ShowTranscriptPill => Action::ResizeWindow(PillSize::transcript()),
                _ => Action::ResizeWindow(PillSize::recording()),
            },
            Stage::Centering => Action::CenterWindow,
            Stage::Showing => Action::ShowWindow,
            Stage::Hiding => Action::HideWindow,
            Stage::Waiting => Action::Wait(PASTE_DELAY_MS),
            Stage::Pasting => Action::SendPasteKeystroke,
            Stage::Done(r) => Action::Finish(copy_result(r)),
        }
    }

    fn step_error(&self, outcome: Outcome) -> (r: Option<BridgeError>)
        ensures
            r == step_error(*self, outcome),
    {
        match &self.stage {
            Stage::LookingUp => match outcome {
                Outcome::WindowPresent => None,
                _ => match self.command {
                    Command::CopyAndPasteText => None,
                    _ => Some(BridgeError::ResourceNotFound),
                },
            },
            Stage::WritingClipboard => match outcome {
                Outcome::Failed(m) => Some(BridgeError::ClipboardWriteFailed(m)),
                _ => None,
            },
            Stage::Resizing | Stage::Centering | Stage::Showing | Stage::Hiding => match outcome {
                Outcome::Failed(m) => Some(BridgeError::WindowOperationFailed(m)),
                _ => None,
            },
            Stage::Pasting => match outcome {
                Outcome::Failed(m) => Some(BridgeError::HelperLaunchFailed(m)),
                Outcome::HelperExited { success, diagnostics } => if success {
                    None
                } else {
                    Some(BridgeError::ExternalHelperFailed(diagnostics))
                },
                _ => None,
            },
            _ => None,
        }
    }

    fn following(&self, present: bool) -> (r: Stage)
        ensures
            r == following(*self, present),
    {
        match &self.stage {
            Stage::WritingClipboard => Stage::LookingUp,
            Stage::LookingUp => match self.command {
                Command::CopyAndPasteText => if present {
                    Stage::Hiding
                } else {
                    Stage::Waiting
                },
                Command::HideRecordingPill => Stage::Hiding,
                _ => Stage::Resizing,
            },
            Stage::Resizing => Stage::Centering,
            Stage::Centering => Stage::Showing,
            Stage::Hiding => match self.command {
                Command::CopyAndPasteText => Stage::Waiting,
                _ => Stage::Done(Ok(())),
            },
            Stage::Waiting => if self.paste_supported {
                Stage::Pasting
            } else {
                Stage::Done(Ok(()))
            },
            Stage::Showing | Stage::Pasting => Stage::Done(Ok(())),
            Stage::Done(r) => Stage::Done(copy_result(r)),
        }
    }

    /// Takes the outcome of the step the session asked for and returns the
    /// next request. A failed step ends the command with its error; the
    /// paste keystroke is only ever asked for right after the delay; a
    /// session that is over stays as it is.
    pub fn advance(&mut self, outcome: Outcome) -> (a: Action)
        ensures
            (*final(self), a) == spec_advance(*old(self), outcome),
            a is SendPasteKeystroke ==> old(self).stage is Waiting,
            old(self).stage is Done ==> *final(self) == *old(self),
    {
        let present = match outcome {
            Outcome::WindowPresent => true,
            _ => false,
        };
        let next = match self.step_error(outcome) {
            Some(e) => Stage::Done(Err(e)),
            None => self.following(present),
        };
        self.stage = next;
        self.request()
    }

    /// Whether the command is over.
    pub fn is_done(&self) -> (r: bool)
        ensures
            r == (self.stage is Done),
    {
        match self.stage {
            Stage::Done(_) => true,
            _ => false,
        }
    }
}

} // verus!
