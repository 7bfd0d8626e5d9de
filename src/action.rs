use vstd::prelude::*;

use crate::state::{SelectionHitZone, Shape, Tool};

verus! {

/// An input event, in the order the UI produced it.
#[derive(Debug, Clone, Copy, PartialEq, Eq)]
pub enum AppAction {
    Screenshot(ScreenshotAction),
    Global(GlobalAction),
}

#[derive(Debug, Clone, Copy, PartialEq, Eq)]
pub enum ScreenshotAction {
    SetTool(Tool),
    SetColor(u8, u8, u8),
    ToogleMode,
    MouseMove(i32, i32),
    DragBegin(i32, i32),
    /// Offset of the pointer from where the drag began.
    DragUpdate(i32, i32),
    DragEnd,
    Save,
    Undo,
}

#[derive(Debug, Clone, Copy, PartialEq, Eq)]
pub enum GlobalAction {
    Quit,
}

/// What the host has to do once an action has been applied.
#[derive(Debug, Clone, Copy, PartialEq, Eq)]
pub struct Effects {
    /// End the session.
    pub quit: bool,
    /// Export the selection and hand it to the clipboard, before quitting.
    pub export: bool,
    /// Reveal the toolbar: annotation mode has begun.
    pub show_toolbar: bool,
    /// Move the toolbar next to the selection.
    pub place_toolbar: bool,
    /// Show the pointer cursor of this hit zone.
    pub cursor: Option<SelectionHitZone>,
    /// Stroke this committed arrow onto the canvas surface and hand it back.
    pub stroke: Option<Shape>,
    /// Repaint.
    pub redraw: bool,
}

/// Effects of an action that only asks for a repaint.
pub open spec fn repaint_only() -> Effects {
    Effects {
        quit: false,
        export: false,
        show_toolbar: false,
        place_toolbar: false,
        cursor: None,
        stroke: None,
        redraw: true,
    }
}

} // verus!
