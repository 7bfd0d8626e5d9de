use vstd::prelude::*;

use crate::action::{repaint_only, AppAction, Effects, GlobalAction, ScreenshotAction};
use crate::blur::BlurError;
use crate::canvas::{Canvas, CanvasView};
use crate::cursor::{get_cursor_zone, zone_of};
use crate::state::{ScreenshotState, Shape, StateView, Tool, EDGE_MARGIN};
use crate::surface::{region_of, side_ok, Surface};

verus! {

/// A session as contracts see it.
pub struct SessionView {
    pub state: StateView,
    pub canvas: CanvasView,
}

impl SessionView {
    pub open spec fn wf(self) -> bool {
        self.state.wf() && self.canvas.wf()
    }

    /// The session after `action`.
    pub open spec fn after_action(self, action: AppAction) -> SessionView {
        let s = self.state;
        let c = self.canvas;
        match action {
            AppAction::Global(GlobalAction::Quit) => self,
            AppAction::Screenshot(a) => match a {
                ScreenshotAction::SetTool(tool) => SessionView { state: StateView { tool, ..s }, canvas: c },
                ScreenshotAction::SetColor(r, g, b) => SessionView {
                    state: StateView { color: (r, g, b), ..s },
                    canvas: c,
                },
                ScreenshotAction::ToogleMode => SessionView { state: s.after_toggle_pause(), canvas: c },
                ScreenshotAction::MouseMove(x, y) => SessionView {
                    state: StateView { mouse_pos: (x, y), ..s },
                    canvas: c,
                },
                ScreenshotAction::DragBegin(x, y) => SessionView {
                    state: s.after_begin_drag(x, y),
                    canvas: if s.tool != Tool::Select && s.paused {
                        c.after_snapshot()
                    } else {
                        c
                    },
                },
                ScreenshotAction::DragUpdate(dx, dy) => SessionView {
                    state: s.after_update_drag(dx, dy),
                    canvas: c,
                },
                ScreenshotAction::DragEnd => SessionView {
                    state: s.after_end_drag(),
                    canvas: match s.current_shape {
                        Some(shape) => c.after_apply(shape),
                        None => c,
                    },
                },
                ScreenshotAction::Save => self,
                ScreenshotAction::Undo => SessionView { state: s, canvas: c.after_undo() },
            },
        }
    }

    /// What the host has to do after `action`.
    pub open spec fn effects_of(self, action: AppAction) -> Effects {
        let s = self.state;
        match action {
            AppAction::Global(GlobalAction::Quit) => Effects { quit: true, redraw: false, ..repaint_only() },
            AppAction::Screenshot(a) => match a {
                ScreenshotAction::ToogleMode => Effects {
                    show_toolbar: s.is_active() && !s.paused,
                    ..repaint_only()
                },
                ScreenshotAction::MouseMove(x, y) => Effects {
                    cursor: if s.is_active() {
                        Some(zone_of(s.rect, (x, y), EDGE_MARGIN as int))
                    } else {
                        None
                    },
                    place_toolbar: s.is_active() && s.paused,
                    ..repaint_only()
                },
                ScreenshotAction::DragUpdate(_, _) => Effects { place_toolbar: true, ..repaint_only() },
                ScreenshotAction::DragEnd => Effects {
                    stroke: stroke_of(s.current_shape),
                    export: !s.paused,
                    quit: !s.paused,
                    ..repaint_only()
                },
                ScreenshotAction::Save => Effects { export: true, quit: true, ..repaint_only() },
                _ => repaint_only(),
            },
        }
    }
}

/// A committed shape that the host still has to stroke: a valid arrow.
pub open spec fn stroke_of(shape: Option<Shape>) -> Option<Shape> {
    match shape {
        Some(sh) => if sh.valid() && sh is Arrow {
            Some(sh)
        } else {
            None
        },
        None => None,
    }
}

/// The selection state and the canvas of one screenshot session, driven by
/// one action at a time.
pub struct Session {
    state: ScreenshotState,
    canvas: Canvas,
}

impl View for Session {
    type V = SessionView;

    closed spec fn view(&self) -> SessionView {
        SessionView { state: self.state@, canvas: self.canvas@ }
    }
}

impl Session {
    /// A fresh session over the captured screen.
    pub fn new(screen: Surface) -> (r: Session)
        requires
            screen@.wf(),
        ensures
            r@ == (SessionView {
                state: StateView::initial(),
                canvas: CanvasView { surface: screen@, history: Seq::empty() },
            }),
            r@.wf(),
    {
        Session { state: ScreenshotState::default(), canvas: Canvas::from_screenshot(screen) }
    }

    pub fn state(&self) -> (r: &ScreenshotState)
        ensures
            r@ == self@.state,
    {
        &self.state
    }

    pub fn canvas(&self) -> (r: &Canvas)
        ensures
            r@ == self@.canvas,
    {
        &self.canvas
    }

    /// Applies one action and says what the host has to do next.
    pub fn handle_action(&mut self, action: AppAction) -> (e: Effects)
        requires
            old(self)@.wf(),
        ensures
            final(self)@ == old(self)@.after_action(action),
            e == old(self)@.effects_of(action),
            final(self)@.wf(),
    {
        let mut effects = Effects {
            quit: false,
            export: false,
            show_toolbar: false,
            place_toolbar: false,
            cursor: None,
            stroke: None,
            redraw: true,
        };
        match action {
            AppAction::Global(GlobalAction::Quit) => {
                effects.quit = true;
                effects.redraw = false;
            },
            AppAction::Screenshot(sub_action) => match sub_action {
                ScreenshotAction::SetTool(tool) => self.state.set_tool(tool),
                ScreenshotAction::SetColor(red, green, blue) => self.state.set_color((red, green, blue)),
                ScreenshotAction::ToogleMode => {
                    if self.state.selection().is_active() && !self.state.is_paused() {
                        self.state.toogle_pause();
                        effects.show_toolbar = true;
                    }
                },
                ScreenshotAction::MouseMove(x, y) => {
                    self.state.set_mouse_pos((x, y));
                    if self.state.selection().is_active() {
                        effects.cursor = Some(
                            get_cursor_zone(
                                self.state.selection().rect(),
                                self.state.mouse_pos(),
                                Some(EDGE_MARGIN),
                            ),
                        );
                        effects.place_toolbar = self.state.is_paused();
                    }
                },
                ScreenshotAction::DragBegin(x, y) => {
                    self.state.begin_drag(x, y);
                    self.canvas.save_shapshot(&self.state);
                },
                ScreenshotAction::DragUpdate(dx, dy) => {
                    self.state.update_drag(dx, dy);
                    effects.place_toolbar = true;
                },
                ScreenshotAction::DragEnd => {
                    if let Some(shape) = self.state.current_shape() {
                        let shape = *shape;
                        let kept = self.canvas.apply_shape(&shape);
                        if kept {
                            if let Shape::Arrow { .. } = shape {
                                effects.stroke = Some(shape);
                            }
                        }
                    }
                    self.state.end_drag();
                    if !self.state.is_paused() {
                        effects.export = true;
                        effects.quit = true;
                    }
                },
                ScreenshotAction::Save => {
                    effects.export = true;
                    effects.quit = true;
                },
                ScreenshotAction::Undo => self.canvas.restore_snapshot(),
            },
        }
        effects
    }

    /// The selected part of the canvas, cropped for export.
    pub fn export_selection(&self) -> (r: Result<Surface, BlurError>)
        requires
            self@.wf(),
        ensures
            r is Ok <==> side_ok(self@.state.rect.w) && side_ok(self@.state.rect.h),
            r matches Ok(s) ==> s@ == region_of(
                self@.canvas.surface,
                self@.state.rect.x as int,
                self@.state.rect.y as int,
                self@.state.rect.w as int,
                self@.state.rect.h as int,
            ),
    {
        self.state.export_selection(self.canvas.surface())
    }

    /// Hands back the canvas surface after the host stroked a shape onto it;
    /// a surface of another layout is refused.
    pub fn commit_stroke(&mut self, stroked: Surface) -> (r: bool)
        requires
            old(self)@.wf(),
            stroked@.wf(),
        ensures
            r == (stroked@.width == old(self)@.canvas.surface.width && stroked@.height
                == old(self)@.canvas.surface.height && stroked@.stride
                == old(self)@.canvas.surface.stride),
            final(self)@ == if r {
                SessionView {
                    canvas: CanvasView { surface: stroked@, ..old(self)@.canvas },
                    ..old(self)@
                }
            } else {
                old(self)@
            },
            final(self)@.wf(),
    {
        self.canvas.commit_stroke(stroked)
    }
}

} // verus!
