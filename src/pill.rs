//! The pill window: its size, its visibility, and the three states the
//! application distinguishes.
use vstd::prelude::*;

verus! {

/// Width and height of the pill window, in physical pixels.
#[derive(Clone, Copy, Debug, PartialEq, Eq, Structural)]
pub struct PillSize {
    pub width: u32,
    pub height: u32,
}

pub const RECORDING_WIDTH: u32 = 400;

pub const RECORDING_HEIGHT: u32 = 100;

pub const TRANSCRIPT_WIDTH: u32 = 600;

pub const TRANSCRIPT_HEIGHT: u32 = 150;

pub open spec fn spec_recording_size() -> PillSize {
    PillSize { width: RECORDING_WIDTH, height: RECORDING_HEIGHT }
}

pub open spec fn spec_transcript_size() -> PillSize {
    PillSize { width: TRANSCRIPT_WIDTH, height: TRANSCRIPT_HEIGHT }
}

impl PillSize {
    /// The compact size shown while the user is dictating.
    pub fn recording() -> (r: PillSize)
        ensures
            r == spec_recording_size(),
    {
        PillSize { width: RECORDING_WIDTH, height: RECORDING_HEIGHT }
    }

    /// The larger size used to show a transcript.
    pub fn transcript() -> (r: PillSize)
        ensures
            r == spec_transcript_size(),
    {
        PillSize { width: TRANSCRIPT_WIDTH, height: TRANSCRIPT_HEIGHT }
    }
}

/// What the user sees of the pill.
#[derive(Clone, Copy, Debug, PartialEq, Eq, Structural)]
pub enum PillMode {
    Hidden,
    VisibleRecording,
    VisibleTranscript,
}

/// The main window as the window manager holds it: whether it is shown, how
/// large it is, and whether it was centred since its last resize.
#[derive(Clone, Copy, Debug, PartialEq, Eq, Structural)]
pub struct PillWindow {
    pub visible: bool,
    pub size: PillSize,
    pub centered: bool,
}

pub open spec fn spec_mode(w: PillWindow) -> PillMode {
    if !w.visible {
        PillMode::Hidden
    } else if w.size == spec_transcript_size() {
        PillMode::VisibleTranscript
    } else {
        PillMode::VisibleRecording
    }
}

impl PillWindow {
    /// A hidden window of the given size.
    pub fn new(size: PillSize) -> (r: PillWindow)
        ensures
            r == (PillWindow { visible: false, size, centered: false }),
    {
        PillWindow { visible: false, size, centered: false }
    }

    /// Gives the window a new size; it is no longer known to be centred.
    pub fn resize(&mut self, size: PillSize)
        ensures
            *final(self) == (PillWindow { visible: old(self).visible, size, centered: false }),
    {
        self.size = size;
        self.centered = false;
    }

    /// Centres the window on the active display.
    pub fn center(&mut self)
        ensures
            *final(self) == (PillWindow { centered: true, ..*old(self) }),
    {
        self.centered = true;
    }

    /// Shows (`true`) or hides (`false`) the window, keeping its size and
    /// position; a hidden window is not destroyed.
    pub fn set_visible(&mut self, visible: bool)
        ensures
            *final(self) == (PillWindow { visible, ..*old(self) }),
    {
        self.visible = visible;
    }

    /// Which of the three states the window is in.
    pub fn mode(&self) -> (r: PillMode)
        ensures
            r == spec_mode(*self),
    {
        if !self.visible {
            PillMode::Hidden
        } else if self.size.width == TRANSCRIPT_WIDTH && self.size.height == TRANSCRIPT_HEIGHT {
            PillMode::VisibleTranscript
        } else {
            PillMode::VisibleRecording
        }
    }
}

} // verus!
