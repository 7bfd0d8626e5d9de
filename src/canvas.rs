use vstd::prelude::*;

use crate::render::{baked, draw_blur, draw_rectangle};
use crate::state::{ScreenshotState, Shape, Tool};
use crate::surface::{Surface, SurfaceView};

verus! {

/// The canvas as contracts see it: the live surface and the snapshots that
/// undo goes back through, latest last.
pub struct CanvasView {
    pub surface: SurfaceView,
    pub history: Seq<SurfaceView>,
}

impl CanvasView {
    pub open spec fn wf(self) -> bool {
        &&& self.surface.wf()
        &&& forall|i: int| 0 <= i < self.history.len() ==> #[trigger] self.history[i].wf()
    }

    /// A copy of the live surface is pushed.
    pub open spec fn after_snapshot(self) -> CanvasView {
        CanvasView { history: self.history.push(self.surface), ..self }
    }

    /// A valid shape is baked in; an invalid one drops the snapshot taken for it.
    pub open spec fn after_apply(self, shape: Shape) -> CanvasView {
        if shape.valid() {
            CanvasView { surface: baked(self.surface, shape), ..self }
        } else if self.history.len() > 0 {
            CanvasView { history: self.history.drop_last(), ..self }
        } else {
            self
        }
    }

    /// The latest snapshot, if any, replaces the live surface.
    pub open spec fn after_undo(self) -> CanvasView {
        if self.history.len() > 0 {
            CanvasView { surface: self.history.last(), history: self.history.drop_last() }
        } else {
            self
        }
    }
}

/// The live raster surface of a session and its undo stack of full snapshots.
pub struct Canvas {
    surface: Surface,
    history: Vec<Surface>,
}

impl View for Canvas {
    type V = CanvasView;

    closed spec fn view(&self) -> CanvasView {
        CanvasView { surface: self.surface@, history: self.history@.map_values(|s: Surface| s@) }
    }
}

impl Canvas {
    /// A canvas over the captured screen, with nothing to undo.
    pub fn from_screenshot(surface: Surface) -> (c: Canvas)
        requires
            surface@.wf(),
        ensures
            c@ == (CanvasView { surface: surface@, history: Seq::empty() }),
            c@.wf(),
    {
        let c = Canvas { surface, history: Vec::new() };
        assert(c@.history =~= Seq::<SurfaceView>::empty());
        c
    }

    pub fn surface(&self) -> (r: &Surface)
        ensures
            r@ == self@.surface,
    {
        &self.surface
    }

    /// Number of snapshots that undo can go back through.
    pub fn history_len(&self) -> (r: usize)
        ensures
            r == self@.history.len(),
    {
        self.history.len()
    }

    /// Before an annotation drag (a tool is active and the session is paused),
    /// keeps a copy of the live surface for undo.
    pub fn save_shapshot(&mut self, state: &ScreenshotState)
        requires
            old(self)@.wf(),
        ensures
            final(self)@ == if state@.tool != Tool::Select && state@.paused {
                old(self)@.after_snapshot()
            } else {
                old(self)@
            },
            final(self)@.wf(),
    {
        if state.current_tool() != Tool::Select && state.is_paused() {
            let backup = Self::clone_surface(&self.surface);
            self.history.push(backup);
            assert(self@.history =~= old(self)@.history.push(old(self)@.surface));
        }
    }

    /// Undo: the latest snapshot, if any, replaces the live surface.
    pub fn restore_snapshot(&mut self)
        requires
            old(self)@.wf(),
        ensures
            final(self)@ == old(self)@.after_undo(),
            final(self)@.wf(),
    {
        let ghost before = self@;
        if let Some(previus_surface) = self.history.pop() {
            self.surface = previus_surface;
            assert(self@.history =~= before.history.drop_last());
        }
    }

    /// A copy of `surface` with its own pixel storage.
    pub fn clone_surface(surface: &Surface) -> (r: Surface)
        ensures
            r@ == surface@,
    {
        surface.duplicate()
    }

    /// Commits the shape that a drag produced: a valid shape stays (a blur
    /// rectangle is redacted and an outline stroked here), an invalid one drops the snapshot taken
    /// for its drag. Returns whether the shape was valid.
    pub fn apply_shape(&mut self, shape: &Shape) -> (r: bool)
        requires
            old(self)@.wf(),
        ensures
            r == shape.valid(),
            final(self)@ == old(self)@.after_apply(*shape),
            final(self)@.wf(),
    {
        let ghost before = self@;
        if shape.is_valid() {
            match shape {
                Shape::Blur { rect } => {
                    let _ = draw_blur(&mut self.surface, rect);
                },
                Shape::Rectangle { rect, color } => draw_rectangle(&mut self.surface, rect, *color),
                Shape::Arrow { .. } => {},
            }
            assert(self@.history =~= before.history);
            true
        } else {
            let _ = self.history.pop();
            assert(before.history.len() > 0 ==> self@.history =~= before.history.drop_last());
            false
        }
    }

    /// Takes back the live surface after the host has stroked a shape onto
    /// it; a surface of another layout is refused and nothing changes.
    pub fn commit_stroke(&mut self, stroked: Surface) -> (r: bool)
        requires
            old(self)@.wf(),
            stroked@.wf(),
        ensures
            r == (stroked@.width == old(self)@.surface.width && stroked@.height
                == old(self)@.surface.height && stroked@.stride == old(self)@.surface.stride),
            final(self)@ == if r {
                CanvasView { surface: stroked@, ..old(self)@ }
            } else {
                old(self)@
            },
            final(self)@.wf(),
    {
        if stroked.width() == self.surface.width() && stroked.height() == self.surface.height()
            && stroked.stride() == self.surface.stride() {
            self.surface = stroked;
            true
        } else {
            false
        }
    }
}

/// Undoing right after a committed shape gives back the canvas, pixel for
/// pixel, as it was before the drag that drew the shape.
pub proof fn lemma_undo_restores(c: CanvasView, shape: Shape)
    requires
        shape.valid(),
    ensures
        c.after_snapshot().after_apply(shape).after_undo() == c,
{
    assert(c.history.push(c.surface).drop_last() =~= c.history);
}

} // verus!
