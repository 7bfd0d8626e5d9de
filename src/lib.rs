//! Interactive screen-region selection, annotation and redaction.
//!
//! The library holds the selection state machine, the hit-zone resolver,
//! shape validity, the separable blur engine over ARGB pixel buffers, the
//! annotation canvas with its snapshot undo stack, and the dispatcher that
//! turns input actions into state changes and effects for the host.
pub mod action;
pub mod blur;
pub mod canvas;
pub mod clipboard;
pub mod cursor;
pub mod export;
pub mod numeric;
pub mod render;
pub mod session;
pub mod state;
pub mod surface;
pub mod toolbar;

pub use action::{AppAction, Effects, GlobalAction, ScreenshotAction};
pub use blur::BlurError;
pub use canvas::Canvas;
pub use clipboard::{png_to_bmp, ClipboardError};
pub use cursor::{cursor_name, get_cursor_zone};
pub use state::{
    DragMode, Rect, ScreenshotState, Selection, SelectionHitZone, SelectionPhase, Shape, Tool,
};
pub use session::Session;
pub use surface::Surface;
pub use toolbar::toolbar_position;
