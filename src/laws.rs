//! What the commands do to the desktop when the host performs each request
//! faithfully, and the properties of those runs.
use vstd::prelude::*;
use crate::bridge::{
    Action,
    BridgeError,
    Command,
    Outcome,
    PASTE_DELAY_MS,
    Session,
    request,
    spec_advance,
    spec_start,
};
use crate::pill::{PillMode, PillWindow, spec_mode, spec_recording_size};

verus! {

/// What the platform holds that the commands act on.
pub struct Desktop {
    /// The main window, where it exists.
    pub window: Option<PillWindow>,
    /// The text on the clipboard.
    pub clipboard: Seq<char>,
    /// Whether the clipboard service accepts a write.
    pub clipboard_accepts: bool,
    /// Whether the paste helper exits with success.
    pub helper_succeeds: bool,
    /// How many paste keystrokes the focused application has received.
    pub pastes: nat,
}

/// The desktop after the host performs request `a`, and what it reports.
pub open spec fn perform(d: Desktop, a: Action) -> (Desktop, Outcome) {
    match a {
        Action::LookUpMainWindow => (
            d,
            if d.window is Some {
                Outcome::WindowPresent
            } else {
                Outcome::WindowAbsent
            },
        ),
        Action::ResizeWindow(size) => match d.window {
            Some(w) => (
                Desktop { window: Some(PillWindow { visible: w.visible, size, centered: false }), ..d },
                Outcome::Completed,
            ),
            None => (d, Outcome::Failed(arbitrary())),
        },
        Action::CenterWindow => match d.window {
            Some(w) => (
                Desktop { window: Some(PillWindow { centered: true, ..w }), ..d },
                Outcome::Completed,
            ),
            None => (d, Outcome::Failed(arbitrary())),
        },
        Action::ShowWindow => match d.window {
            Some(w) => (
                Desktop { window: Some(PillWindow { visible: true, ..w }), ..d },
                Outcome::Completed,
            ),
            None => (d, Outcome::Failed(arbitrary())),
        },
        Action::HideWindow => match d.window {
            Some(w) => (
                Desktop { window: Some(PillWindow { visible: false, ..w }), ..d },
                Outcome::Completed,
            ),
            None => (d, Outcome::Failed(arbitrary())),
        },
        Action::WriteClipboard(t) => if d.clipboard_accepts {
            (Desktop { clipboard: t@, ..d }, Outcome::Completed)
        } else {
            (d, Outcome::Failed(arbitrary()))
        },
        Action::Wait(_) => (d, Outcome::Completed),
        Action::SendPasteKeystroke => (
            Desktop { pastes: if d.helper_succeeds { d.pastes + 1 } else { d.pastes }, ..d },
            Outcome::HelperExited { success: d.helper_succeeds, diagnostics: arbitrary() },
        ),
        Action::Finish(_) => (d, Outcome::Completed),
    }
}

/// The requests a session makes from request `a` on, the desktop after
/// them, and the command's result if it ends within `fuel` steps.
pub open spec fn run(s: Session, a: Action, d: Desktop, fuel: nat) -> (
    Seq<Action>,
    Desktop,
    Option<Result<(), BridgeError>>,
)
    decreases fuel,
{
    match a {
        Action::Finish(r) => (seq![], d, Some(r)),
        _ => if fuel == 0 {
            (seq![a], d, None)
        } else {
            let (d2, o) = perform(d, a);
            let (s2, a2) = spec_advance(s, o);
            let (tr, d3, r) = run(s2, a2, d2, (fuel - 1) as nat);
            (seq![a] + tr, d3, r)
        },
    }
}

/// A whole invocation of command `c` on desktop `d`.
pub open spec fn execute(c: Command, text: String, paste_supported: bool, d: Desktop) -> (
    Seq<Action>,
    Desktop,
    Option<Result<(), BridgeError>>,
) {
    let (s, a) = spec_start(c, text, paste_supported);
    run(s, a, d, 8)
}

/// A copy-and-paste that succeeds leaves exactly its text on the clipboard.
pub proof fn lemma_paste_leaves_text(text: String, paste_supported: bool, d: Desktop)
    ensures
        execute(Command::CopyAndPasteText, text, paste_supported, d).2 == Some(
            Ok::<(), BridgeError>(()),
        ) ==> execute(Command::CopyAndPasteText, text, paste_supported, d).1.clipboard == text@,
{
    reveal_with_fuel(run, 9);
}

/// Hiding the pill and then showing it for recording leaves it visible,
/// centred and at the recording size, whatever its size was before.
pub proof fn lemma_hide_then_show_recording(text: String, d: Desktop)
    requires
        d.window is Some,
    ensures
        ({
            let (_, d1, r1) = execute(Command::HideRecordingPill, text, false, d);
            let (_, d2, r2) = execute(Command::ShowRecordingPill, text, false, d1);
            &&& r1 == Some(Ok::<(), BridgeError>(()))
            &&& spec_mode(d1.window.unwrap()) == PillMode::Hidden
            &&& r2 == Some(Ok::<(), BridgeError>(()))
            &&& d2.window == Some(
                PillWindow { visible: true, size: spec_recording_size(), centered: true },
            )
            &&& spec_mode(d2.window.unwrap()) == PillMode::VisibleRecording
        }),
{
    reveal_with_fuel(run, 9);
}

/// Without a main window, each window command stops after the lookup with
/// `ResourceNotFound` and changes nothing.
pub proof fn lemma_window_commands_need_window(
    c: Command,
    text: String,
    paste_supported: bool,
    d: Desktop,
)
    requires
        !(c is CopyAndPasteText),
        d.window is None,
    ensures
        execute(c, text, paste_supported, d) == (
            seq![Action::LookUpMainWindow],
            d,
            Some(Err::<(), BridgeError>(BridgeError::ResourceNotFound)),
        ),
{
    reveal_with_fuel(run, 9);
}

/// Without a main window, a copy-and-paste still writes the clipboard, looks
/// for the window, waits, and pastes where the platform can; it succeeds
/// unless the paste helper fails.
pub proof fn lemma_paste_without_window(text: String, paste_supported: bool, d: Desktop)
    requires
        d.window is None,
        d.clipboard_accepts,
    ensures
        ({
            let (tr, d2, r) = execute(Command::CopyAndPasteText, text, paste_supported, d);
            &&& tr == seq![
                Action::WriteClipboard(text),
                Action::LookUpMainWindow,
                Action::Wait(PASTE_DELAY_MS),
            ] + if paste_supported {
                seq![Action::SendPasteKeystroke]
            } else {
                Seq::<Action>::empty()
            }
            &&& d2.clipboard == text@
            &&& d2.window is None
            &&& (!paste_supported || d.helper_succeeds) ==> r == Some(Ok::<(), BridgeError>(()))
        }),
{
    reveal_with_fuel(run, 9);
}

/// With a main window, a copy-and-paste writes the clipboard, hides the
/// window, waits, and sends one paste keystroke.
pub proof fn lemma_paste_with_window(text: String, d: Desktop)
    requires
        d.window is Some,
        d.clipboard_accepts,
        d.helper_succeeds,
    ensures
        ({
            let (tr, d2, r) = execute(Command::CopyAndPasteText, text, true, d);
            &&& tr == seq![
                Action::WriteClipboard(text),
                Action::LookUpMainWindow,
                Action::HideWindow,
                Action::Wait(PASTE_DELAY_MS),
                Action::SendPasteKeystroke,
            ]
            &&& d2.clipboard == text@
            &&& d2.window == Some(PillWindow { visible: false, ..d.window.unwrap() })
            &&& d2.pastes == d.pastes + 1
            &&& r == Some(Ok::<(), BridgeError>(()))
        }),
{
    reveal_with_fuel(run, 9);
}

/// Whatever the host reports, a session asks for the paste keystroke only
/// right after it asked for the delay.
pub proof fn lemma_delay_precedes_paste(s: Session, o: Outcome)
    ensures
        spec_advance(s, o).1 is SendPasteKeystroke ==> request(s) == Action::Wait(PASTE_DELAY_MS),
{
}

} // verus!
