use wispr_clone::bridge::{Action, BridgeError, Outcome, Session, Stage, PASTE_DELAY_MS};
use wispr_clone::greeting::greet;
use wispr_clone::pill::{PillMode, PillSize, PillWindow};

/// A desktop in memory that performs each request as the platform would.
struct FakeDesktop {
    window: Option<PillWindow>,
    clipboard: String,
    clipboard_accepts: bool,
    helper_exit_ok: bool,
    helper_output: String,
    pastes: u32,
    log: Vec<Action>,
}

impl FakeDesktop {
    fn new(window: Option<PillWindow>) -> FakeDesktop {
        FakeDesktop {
            window,
            clipboard: String::new(),
            clipboard_accepts: true,
            helper_exit_ok: true,
            helper_output: String::new(),
            pastes: 0,
            log: Vec::new(),
        }
    }

    fn perform(&mut self, action: &Action) -> Outcome {
        let gone = || Outcome::Failed("window is gone".to_string());
        match action {
            Action::LookUpMainWindow => {
                if self.window.is_some() {
                    Outcome::WindowPresent
                } else {
                    Outcome::WindowAbsent
                }
            }
            Action::ResizeWindow(size) => match self.window.as_mut() {
                Some(w) => {
                    w.resize(*size);
                    Outcome::Completed
                }
                None => gone(),
            },
            Action::CenterWindow => match self.window.as_mut() {
                Some(w) => {
                    w.center();
                    Outcome::Completed
                }
                None => gone(),
            },
            Action::ShowWindow => match self.window.as_mut() {
                Some(w) => {
                    w.set_visible(true);
                    Outcome::Completed
                }
                None => gone(),
            },
            Action::HideWindow => match self.window.as_mut() {
                Some(w) => {
                    w.set_visible(false);
                    Outcome::Completed
                }
                None => gone(),
            },
            Action::WriteClipboard(text) => {
                if self.clipboard_accepts {
                    self.clipboard = text.clone();
                    Outcome::Completed
                } else {
                    Outcome::Failed("clipboard unavailable".to_string())
                }
            }
            Action::Wait(_) => Outcome::Completed,
            Action::SendPasteKeystroke => {
                if self.helper_exit_ok {
                    self.pastes += 1;
                }
                Outcome::HelperExited {
                    success: self.helper_exit_ok,
                    diagnostics: self.helper_output.clone(),
                }
            }
            Action::Finish(_) => Outcome::Completed,
        }
    }

    fn drive(&mut self, start: (Session, Action)) -> Result<(), BridgeError> {
        let (mut session, mut action) = start;
        for _ in 0..20 {
            if let Action::Finish(r) = action {
                assert!(session.is_done());
                return r;
            }
            let outcome = self.perform(&action);
            self.log.push(action);
            action = session.advance(outcome);
        }
        panic!("session did not end");
    }
}

fn small_visible() -> PillWindow {
    let mut w = PillWindow::new(PillSize::recording());
    w.set_visible(true);
    w
}

#[test]
fn hello_world_is_copied_hidden_and_pasted() {
    let mut desk = FakeDesktop::new(Some(small_visible()));
    let r = desk.drive(Session::copy_and_paste_text("hello world".to_string(), true));
    assert_eq!(r, Ok(()));
    assert_eq!(desk.clipboard, "hello world");
    assert_eq!(desk.window.unwrap().mode(), PillMode::Hidden);
    assert_eq!(desk.pastes, 1);
    assert_eq!(
        desk.log,
        vec![
            Action::WriteClipboard("hello world".to_string()),
            Action::LookUpMainWindow,
            Action::HideWindow,
            Action::Wait(150),
            Action::SendPasteKeystroke,
        ]
    );
}

#[test]
fn no_window_transcript_fails_but_paste_succeeds() {
    let mut desk = FakeDesktop::new(None);
    let r = desk.drive(Session::show_transcript_pill());
    assert_eq!(r, Err(BridgeError::ResourceNotFound));
    assert_eq!(desk.log, vec![Action::LookUpMainWindow]);

    let mut desk = FakeDesktop::new(None);
    let r = desk.drive(Session::copy_and_paste_text("hello world".to_string(), true));
    assert_eq!(r, Ok(()));
    assert_eq!(desk.clipboard, "hello world");
    assert_eq!(
        desk.log,
        vec![
            Action::WriteClipboard("hello world".to_string()),
            Action::LookUpMainWindow,
            Action::Wait(PASTE_DELAY_MS),
            Action::SendPasteKeystroke,
        ]
    );
}

#[test]
fn clipboard_holds_text_unchanged() {
    let text = "  multi\nline ünïcode — text\t";
    let mut desk = FakeDesktop::new(Some(small_visible()));
    let r = desk.drive(Session::copy_and_paste_text(text.to_string(), false));
    assert_eq!(r, Ok(()));
    assert_eq!(desk.clipboard, text);

    let mut desk = FakeDesktop::new(None);
    let r = desk.drive(Session::copy_and_paste_text(String::new(), true));
    assert_eq!(r, Ok(()));
    assert_eq!(desk.clipboard, "");
}

#[test]
fn hide_then_show_recording_gives_small_visible_window() {
    let mut big = PillWindow::new(PillSize::transcript());
    big.set_visible(true);
    let mut desk = FakeDesktop::new(Some(big));
    assert_eq!(desk.drive(Session::hide_recording_pill()), Ok(()));
    assert_eq!(desk.window.unwrap().mode(), PillMode::Hidden);
    assert_eq!(desk.drive(Session::show_recording_pill()), Ok(()));
    let w = desk.window.unwrap();
    assert!(w.visible);
    assert!(w.centered);
    assert_eq!(w.size, PillSize { width: 400, height: 100 });
    assert_eq!(w.mode(), PillMode::VisibleRecording);
}

#[test]
fn show_transcript_resizes_centres_and_shows() {
    let mut desk = FakeDesktop::new(Some(PillWindow::new(PillSize::recording())));
    assert_eq!(desk.drive(Session::show_transcript_pill()), Ok(()));
    let w = desk.window.unwrap();
    assert_eq!(w.size, PillSize { width: 600, height: 150 });
    assert_eq!(w.mode(), PillMode::VisibleTranscript);
    assert_eq!(
        desk.log,
        vec![
            Action::LookUpMainWindow,
            Action::ResizeWindow(PillSize { width: 600, height: 150 }),
            Action::CenterWindow,
            Action::ShowWindow,
        ]
    );
}

#[test]
fn every_window_command_needs_the_window() {
    for start in [
        Session::show_recording_pill(),
        Session::show_transcript_pill(),
        Session::hide_recording_pill(),
    ] {
        let mut desk = FakeDesktop::new(None);
        assert_eq!(desk.drive(start), Err(BridgeError::ResourceNotFound));
        assert_eq!(desk.log, vec![Action::LookUpMainWindow]);
    }
    assert_eq!(BridgeError::ResourceNotFound.message(), "main window not found");
}

#[test]
fn paste_without_window_and_without_helper() {
    let mut desk = FakeDesktop::new(None);
    let r = desk.drive(Session::copy_and_paste_text("abc".to_string(), false));
    assert_eq!(r, Ok(()));
    assert_eq!(desk.clipboard, "abc");
    assert_eq!(desk.pastes, 0);
    assert_eq!(
        desk.log,
        vec![
            Action::WriteClipboard("abc".to_string()),
            Action::LookUpMainWindow,
            Action::Wait(150),
        ]
    );
}

#[test]
fn delay_comes_right_before_keystroke() {
    let mut desk = FakeDesktop::new(Some(small_visible()));
    desk.drive(Session::copy_and_paste_text("x".to_string(), true)).unwrap();
    let k = desk
        .log
        .iter()
        .position(|a| *a == Action::SendPasteKeystroke)
        .unwrap();
    assert!(k > 0);
    assert_eq!(desk.log[k - 1], Action::Wait(PASTE_DELAY_MS));
}

#[test]
fn clipboard_failure_stops_the_paste() {
    let mut desk = FakeDesktop::new(Some(small_visible()));
    desk.clipboard_accepts = false;
    let r = desk.drive(Session::copy_and_paste_text("abc".to_string(), true));
    let e = r.unwrap_err();
    assert_eq!(e, BridgeError::ClipboardWriteFailed("clipboard unavailable".to_string()));
    assert_eq!(e.message(), "clipboard unavailable");
    assert_eq!(desk.log, vec![Action::WriteClipboard("abc".to_string())]);
    assert!(desk.window.unwrap().visible);
}

#[test]
fn helper_failure_reports_its_output() {
    let mut desk = FakeDesktop::new(None);
    desk.helper_exit_ok = false;
    desk.helper_output = "not allowed assistive access".to_string();
    let e = desk
        .drive(Session::copy_and_paste_text("abc".to_string(), true))
        .unwrap_err();
    assert_eq!(
        e,
        BridgeError::ExternalHelperFailed("not allowed assistive access".to_string())
    );
    assert_eq!(e.message(), "not allowed assistive access");
    assert_eq!(desk.clipboard, "abc");
}

#[test]
fn helper_launch_failure_is_prefixed() {
    let (mut s, _) = Session::copy_and_paste_text("abc".to_string(), true);
    assert_eq!(s.advance(Outcome::Completed), Action::LookUpMainWindow);
    assert_eq!(s.advance(Outcome::WindowAbsent), Action::Wait(150));
    assert_eq!(s.advance(Outcome::Completed), Action::SendPasteKeystroke);
    let a = s.advance(Outcome::Failed("No such file or directory".to_string()));
    let e = BridgeError::HelperLaunchFailed("No such file or directory".to_string());
    assert_eq!(e.message(), "Process error: No such file or directory");
    assert_eq!(a, Action::Finish(Err(e)));
}

#[test]
fn window_operation_failure_ends_show() {
    let (mut s, a) = Session::show_recording_pill();
    assert_eq!(a, Action::LookUpMainWindow);
    assert_eq!(
        s.advance(Outcome::WindowPresent),
        Action::ResizeWindow(PillSize { width: 400, height: 100 })
    );
    assert_eq!(s.advance(Outcome::Completed), Action::CenterWindow);
    let a = s.advance(Outcome::Failed("display lost".to_string()));
    let e = BridgeError::WindowOperationFailed("display lost".to_string());
    assert_eq!(e.message(), "display lost");
    assert_eq!(a, Action::Finish(Err(e)));
}

#[test]
fn hide_failure_in_paste_ends_it() {
    let (mut s, _) = Session::copy_and_paste_text("abc".to_string(), true);
    s.advance(Outcome::Completed);
    assert_eq!(s.advance(Outcome::WindowPresent), Action::HideWindow);
    let a = s.advance(Outcome::Failed("no".to_string()));
    assert_eq!(
        a,
        Action::Finish(Err(BridgeError::WindowOperationFailed("no".to_string())))
    );
}

#[test]
fn finished_session_stays_finished() {
    let (mut s, _) = Session::hide_recording_pill();
    let a = s.advance(Outcome::WindowAbsent);
    assert_eq!(a, Action::Finish(Err(BridgeError::ResourceNotFound)));
    assert!(s.is_done());
    assert_eq!(s.advance(Outcome::Completed), a);
    assert_eq!(s.stage, Stage::Done(Err(BridgeError::ResourceNotFound)));
    assert_eq!(s.request(), a);
}

#[test]
fn greeting_text() {
    assert_eq!(greet("Ada"), "Hello, Ada! You've been greeted from Rust!");
    assert_eq!(greet(""), "Hello, ! You've been greeted from Rust!");
}

#[test]
fn pill_modes() {
    let mut w = PillWindow::new(PillSize::transcript());
    assert_eq!(w.mode(), PillMode::Hidden);
    w.set_visible(true);
    assert_eq!(w.mode(), PillMode::VisibleTranscript);
    w.resize(PillSize::recording());
    assert!(!w.centered);
    assert_eq!(w.mode(), PillMode::VisibleRecording);
    w.center();
    assert!(w.centered && w.visible);
}
