use vstd::prelude::*;

use crate::blur::BlurError;
use crate::cursor::{get_cursor_zone, zone_of};
use crate::export::export_selection;
use crate::numeric::{abs_i64, add_sat, clamp_i32, saturate_i32};
use crate::surface::{region_of, side_ok, Surface};

verus! {

/// An axis-aligned rectangle in surface coordinates.
#[derive(Debug, Clone, Copy, PartialEq, Eq, Structural)]
pub struct Rect {
    pub x: i32,
    pub y: i32,
    pub w: i32,
    pub h: i32,
}

impl Rect {
    /// Width and height are not negative.
    pub open spec fn wf(self) -> bool {
        self.w >= 0 && self.h >= 0
    }

    pub open spec fn is_empty_spec(self) -> bool {
        self.w == 0 || self.h == 0
    }

    /// Half-open containment: `[x, x + w) x [y, y + h)`.
    pub open spec fn contains_spec(self, p: (i32, i32)) -> bool {
        self.x <= p.0 < self.x + self.w && self.y <= p.1 < self.y + self.h
    }

    pub fn zero() -> (r: Self)
        ensures
            r == (Rect { x: 0, y: 0, w: 0, h: 0 }),
    {
        Self { x: 0, y: 0, w: 0, h: 0 }
    }

    pub fn is_empty(&self) -> (r: bool)
        ensures
            r == self.is_empty_spec(),
    {
        self.w == 0 || self.h == 0
    }

    pub fn contains(&self, p: (i32, i32)) -> (r: bool)
        ensures
            r == self.contains_spec(p),
    {
        let (x, y) = p;
        x >= self.x && (x as i64) < self.x as i64 + self.w as i64 && y >= self.y && (y as i64)
            < self.y as i64 + self.h as i64
    }
}

/// Phase of the selection rectangle.
#[derive(Debug, Clone, Copy, PartialEq, Eq, Structural)]
pub enum SelectionPhase {
    Idle,
    Dragging,
    Finalized,
}

/// The selection rectangle and its phase.
#[derive(Debug, Clone, Copy)]
pub struct Selection {
    rect: Rect,
    pub phase: SelectionPhase,
}

impl Selection {
    pub closed spec fn spec_rect(self) -> Rect {
        self.rect
    }

    pub closed spec fn spec_phase(self) -> SelectionPhase {
        self.phase
    }

    pub open spec fn is_active_spec(self) -> bool {
        self.spec_phase() != SelectionPhase::Idle
    }

    pub fn rect(&self) -> (r: &Rect)
        ensures
            *r == self.spec_rect(),
    {
        &self.rect
    }

    pub fn idle() -> (r: Self)
        ensures
            r.spec_rect() == (Rect { x: 0, y: 0, w: 0, h: 0 }),
            r.spec_phase() == SelectionPhase::Idle,
    {
        Self { rect: Rect::zero(), phase: SelectionPhase::Idle }
    }

    pub fn dragging(rect: Rect) -> (r: Self)
        ensures
            r.spec_rect() == rect,
            r.spec_phase() == SelectionPhase::Dragging,
    {
        Self { rect, phase: SelectionPhase::Dragging }
    }

    pub fn finalized(rect: Rect) -> (r: Self)
        ensures
            r.spec_rect() == rect,
            r.spec_phase() == SelectionPhase::Finalized,
    {
        Self { rect, phase: SelectionPhase::Finalized }
    }

    pub fn is_active(&self) -> (r: bool)
        ensures
            r == self.is_active_spec(),
    {
        self.phase != SelectionPhase::Idle
    }
}

/// The active tool; `Select` edits the selection geometry.
#[derive(Debug, Clone, Copy, PartialEq, Eq, Structural)]
pub enum Tool {
    Select,
    Arrow,
    Rectangle,
    Blur,
}

/// Where a point lies relative to a rectangle's edges, corners and interior.
#[derive(Debug, Clone, Copy, PartialEq, Eq, Structural)]
pub enum SelectionHitZone {
    Outside,
    Inside,
    N,
    S,
    E,
    W,
    NW,
    NE,
    SW,
    SE,
}

impl SelectionHitZone {
    pub open spec fn is_corner(self) -> bool {
        self is NW || self is NE || self is SW || self is SE
    }

    pub open spec fn is_resize(self) -> bool {
        !(self is Outside) && !(self is Inside)
    }
}

/// What a geometry drag does, fixed when the drag begins.
#[derive(Debug, Clone, Copy, PartialEq, Eq, Structural)]
pub enum DragMode {
    Create,
    Move,
    Resize(SelectionHitZone),
}

/// The drag mode that a hit zone starts.
pub open spec fn mode_for_zone(zone: SelectionHitZone) -> DragMode {
    match zone {
        SelectionHitZone::Outside => DragMode::Create,
        SelectionHitZone::Inside => DragMode::Move,
        z => DragMode::Resize(z),
    }
}

/// An annotation.
#[derive(Debug, Clone, Copy, PartialEq, Eq)]
pub enum Shape {
    Arrow { from: (i32, i32), to: (i32, i32), color: (u8, u8, u8) },
    Rectangle { rect: Rect, color: (u8, u8, u8) },
    Blur { rect: Rect },
}

/// Squared distance between two points.
pub open spec fn dist2(from: (i32, i32), to: (i32, i32)) -> int {
    (to.0 - from.0) * (to.0 - from.0) + (to.1 - from.1) * (to.1 - from.1)
}

impl Shape {
    /// An arrow longer than an accidental click; a rectangle or blur larger
    /// than five pixels on each side.
    pub open spec fn valid(self) -> bool {
        match self {
            Shape::Arrow { from, to, .. } => dist2(from, to) > 10,
            Shape::Rectangle { rect, .. } => rect.w > 5 && rect.h > 5,
            Shape::Blur { rect } => rect.w > 5 && rect.h > 5,
        }
    }

    pub fn is_valid(&self) -> (r: bool)
        ensures
            r == self.valid(),
    {
        match self {
            Shape::Arrow { from, to, .. } => {
                let dx = to.0 as i128 - from.0 as i128;
                let dy = to.1 as i128 - from.1 as i128;
                assert(dx * dx <= 0x1_0000_0000_0000_0000) by (nonlinear_arith)
                    requires
                        -0x1_0000_0000 <= dx <= 0x1_0000_0000,
                ;
                assert(dy * dy <= 0x1_0000_0000_0000_0000) by (nonlinear_arith)
                    requires
                        -0x1_0000_0000 <= dy <= 0x1_0000_0000,
                ;
                assert(0 <= dx * dx && 0 <= dy * dy) by (nonlinear_arith);
                let dist = dx * dx + dy * dy;
                dist > 10
            },
            Shape::Rectangle { rect, .. } => rect.w > 5 && rect.h > 5,
            Shape::Blur { rect } => rect.w > 5 && rect.h > 5,
        }
    }
}

/// The normalised rectangle spanned by two points.
pub open spec fn rect_between(from: (i32, i32), to: (i32, i32)) -> Rect {
    let x1 = if from.0 <= to.0 { from.0 } else { to.0 };
    let y1 = if from.1 <= to.1 { from.1 } else { to.1 };
    let x2 = if from.0 <= to.0 { to.0 } else { from.0 };
    let y2 = if from.1 <= to.1 { to.1 } else { from.1 };
    Rect { x: x1, y: y1, w: clamp_i32(x2 - x1), h: clamp_i32(y2 - y1) }
}

/// The preview shape that a drag with `tool` from `from` to `to` draws.
pub open spec fn preview_shape(tool: Tool, from: (i32, i32), to: (i32, i32), color: (u8, u8, u8)) -> Option<Shape> {
    match tool {
        Tool::Arrow => Some(Shape::Arrow { from, to, color }),
        Tool::Rectangle => Some(Shape::Rectangle { rect: rect_between(from, to), color }),
        Tool::Blur => Some(Shape::Blur { rect: rect_between(from, to) }),
        Tool::Select => None,
    }
}

/// `origin` resized by dragging the edges or corner named by `zone` by
/// `(dx, dy)`; the opposite edges stay, and every adjusted side is at least 1.
pub open spec fn resized(origin: Rect, zone: SelectionHitZone, dx: i32, dy: i32) -> Rect {
    let left = clamp_i32(origin.x + dx);
    let top = clamp_i32(origin.y + dy);
    let grow_w = clamp_i32(max1(origin.w + dx));
    let shrink_w = clamp_i32(max1(origin.w - dx));
    let grow_h = clamp_i32(max1(origin.h + dy));
    let shrink_h = clamp_i32(max1(origin.h - dy));
    match zone {
        SelectionHitZone::NW => Rect { x: left, y: top, w: shrink_w, h: shrink_h },
        SelectionHitZone::NE => Rect { x: origin.x, y: top, w: grow_w, h: shrink_h },
        SelectionHitZone::SE => Rect { x: origin.x, y: origin.y, w: grow_w, h: grow_h },
        SelectionHitZone::SW => Rect { x: left, y: origin.y, w: shrink_w, h: grow_h },
        SelectionHitZone::N => Rect { x: origin.x, y: top, w: origin.w, h: shrink_h },
        SelectionHitZone::S => Rect { x: origin.x, y: origin.y, w: origin.w, h: grow_h },
        SelectionHitZone::W => Rect { x: left, y: origin.y, w: shrink_w, h: origin.h },
        SelectionHitZone::E => Rect { x: origin.x, y: origin.y, w: grow_w, h: origin.h },
        _ => origin,
    }
}

pub open spec fn max1(v: int) -> int {
    if v < 1 {
        1
    } else {
        v
    }
}

/// The rectangle a create drag from `start` to `cur` spans.
pub open spec fn created(start: (i32, i32), cur: (i32, i32)) -> Rect {
    Rect {
        x: if start.0 <= cur.0 { start.0 } else { cur.0 },
        y: if start.1 <= cur.1 { start.1 } else { cur.1 },
        w: clamp_i32(abs_int(cur.0 - start.0)),
        h: clamp_i32(abs_int(cur.1 - start.1)),
    }
}

pub open spec fn abs_int(v: int) -> int {
    if v < 0 {
        -v
    } else {
        v
    }
}

/// `a + b` on each coordinate, saturated.
pub open spec fn offset_point(p: (i32, i32), dx: i32, dy: i32) -> (i32, i32) {
    (clamp_i32(p.0 + dx), clamp_i32(p.1 + dy))
}

/// The whole state of a selection session, as contracts see it.
pub struct StateView {
    pub rect: Rect,
    pub phase: SelectionPhase,
    pub paused: bool,
    pub mouse_pos: (i32, i32),
    pub tool: Tool,
    pub color: (u8, u8, u8),
    pub drag_start: Option<(i32, i32)>,
    pub drag_origin: Option<Rect>,
    pub drag_mode: Option<DragMode>,
    pub current_shape: Option<Shape>,
}

impl StateView {
    /// The rectangles held have no negative side.
    pub open spec fn wf(self) -> bool {
        &&& self.rect.wf()
        &&& (self.drag_origin matches Some(o) ==> o.wf())
    }

    pub open spec fn is_active(self) -> bool {
        self.phase != SelectionPhase::Idle
    }

    /// A fresh session: nothing selected, not paused, no tool, red ink.
    pub open spec fn initial() -> StateView {
        StateView {
            rect: Rect { x: 0, y: 0, w: 0, h: 0 },
            phase: SelectionPhase::Idle,
            paused: false,
            mouse_pos: (0, 0),
            tool: Tool::Select,
            color: (255, 0, 0),
            drag_start: None,
            drag_origin: None,
            drag_mode: None,
            current_shape: None,
        }
    }

    /// Pausing is a one-way gate, open only while a selection is active.
    pub open spec fn after_toggle_pause(self) -> StateView {
        StateView { paused: self.paused || self.is_active(), ..self }
    }

    /// Annotation drags start only inside the paused, active selection;
    /// geometry drags start only before pausing, which freezes the geometry.
    pub open spec fn after_begin_drag(self, x: i32, y: i32) -> StateView {
        if self.tool != Tool::Select {
            if self.paused && self.is_active() && self.rect.contains_spec((x, y)) {
                StateView { mouse_pos: (x, y), drag_start: Some((x, y)), current_shape: None, ..self }
            } else {
                StateView { mouse_pos: (x, y), ..self }
            }
        } else if self.paused {
            StateView { mouse_pos: (x, y), ..self }
        } else {
            StateView {
                mouse_pos: (x, y),
                drag_start: Some((x, y)),
                drag_origin: Some(self.rect),
                drag_mode: Some(mode_for_zone(zone_of(self.rect, (x, y), EDGE_MARGIN as int))),
                phase: SelectionPhase::Dragging,
                ..self
            }
        }
    }

    /// `(dx, dy)` is the offset of the pointer from where the drag began.
    pub open spec fn after_update_drag(self, dx: i32, dy: i32) -> StateView {
        match self.drag_start {
            None => self,
            Some(start) => {
                let cur = offset_point(start, dx, dy);
                if self.tool != Tool::Select {
                    StateView {
                        mouse_pos: cur,
                        current_shape: preview_shape(self.tool, start, cur, self.color),
                        ..self
                    }
                } else if self.paused {
                    self
                } else {
                    match (self.drag_origin, self.drag_mode) {
                        (Some(origin), Some(mode)) => StateView {
                            rect: match mode {
                                DragMode::Create => created(start, cur),
                                DragMode::Move => Rect {
                                    x: clamp_i32(origin.x + dx),
                                    y: clamp_i32(origin.y + dy),
                                    ..self.rect
                                },
                                DragMode::Resize(zone) => resized(origin, zone, dx, dy),
                            },
                            mouse_pos: cur,
                            ..self
                        },
                        _ => self,
                    }
                }
            },
        }
    }

    /// Ending a drag finalizes a non-empty active selection and drops an
    /// empty one back to idle.
    pub open spec fn after_end_drag(self) -> StateView {
        let keep = self.is_active() && !self.rect.is_empty_spec();
        StateView {
            rect: if keep { self.rect } else { Rect { x: 0, y: 0, w: 0, h: 0 } },
            phase: if keep { SelectionPhase::Finalized } else { SelectionPhase::Idle },
            drag_start: None,
            drag_origin: None,
            drag_mode: None,
            current_shape: None,
            ..self
        }
    }
}

/// The selection session: geometry, pause gate, pointer, tool and the
/// transient fields of the drag in progress.
#[derive(Debug, Clone, Copy)]
pub struct ScreenshotState {
    selection: Selection,
    paused: bool,
    mouse_pos: (i32, i32),
    current_tool: Tool,
    current_color: (u8, u8, u8),
    drag_start: Option<(i32, i32)>,
    drag_origin: Option<Rect>,
    drag_mode: Option<DragMode>,
    current_shape: Option<Shape>,
}

impl View for ScreenshotState {
    type V = StateView;

    closed spec fn view(&self) -> StateView {
        StateView {
            rect: self.selection.rect,
            phase: self.selection.phase,
            paused: self.paused,
            mouse_pos: self.mouse_pos,
            tool: self.current_tool,
            color: self.current_color,
            drag_start: self.drag_start,
            drag_origin: self.drag_origin,
            drag_mode: self.drag_mode,
            current_shape: self.current_shape,
        }
    }
}

impl Default for ScreenshotState {
    fn default() -> (r: Self)
        ensures
            r@ == StateView::initial(),
    {
        Self {
            selection: Selection::idle(),
            paused: false,
            mouse_pos: (0, 0),
            current_tool: Tool::Select,
            current_color: (255, 0, 0),
            drag_start: None,
            drag_origin: None,
            drag_mode: None,
            current_shape: None,
        }
    }
}

impl ScreenshotState {
    pub fn selection(&self) -> (r: &Selection)
        ensures
            r.spec_rect() == self@.rect,
            r.spec_phase() == self@.phase,
    {
        &self.selection
    }

    pub fn is_paused(&self) -> (r: bool)
        ensures
            r == self@.paused,
    {
        self.paused
    }

    pub fn mouse_pos(&self) -> (r: (i32, i32))
        ensures
            r == self@.mouse_pos,
    {
        self.mouse_pos
    }

    pub fn current_shape(&self) -> (r: Option<&Shape>)
        ensures
            match r {
                Some(s) => self@.current_shape == Some(*s),
                None => self@.current_shape is None,
            },
    {
        match &self.current_shape {
            Some(s) => Some(s),
            None => None,
        }
    }

    pub fn current_tool(&self) -> (r: Tool)
        ensures
            r == self@.tool,
    {
        self.current_tool
    }

    /// Enters annotation mode once a selection is active; there is no way back.
    pub fn toogle_pause(&mut self)
        ensures
            final(self)@ == old(self)@.after_toggle_pause(),
            old(self)@.wf() ==> final(self)@.wf(),
    {
        if self.selection.is_active() && !self.paused {
            self.paused = !self.paused;
        }
    }

    pub fn set_tool(&mut self, tool: Tool)
        ensures
            final(self)@ == (StateView { tool, ..old(self)@ }),
    {
        self.current_tool = tool;
    }

    pub fn set_color(&mut self, color: (u8, u8, u8))
        ensures
            final(self)@ == (StateView { color, ..old(self)@ }),
    {
        self.current_color = color;
    }

    /// Starts a drag at `(x, y)`: an annotation drag inside the paused
    /// selection when a tool is active; else, unless paused, a geometry drag
    /// whose mode the hit zone under the pointer decides.
    pub fn begin_drag(&mut self, x: i32, y: i32)
        ensures
            final(self)@ == old(self)@.after_begin_drag(x, y),
            old(self)@.wf() ==> final(self)@.wf(),
    {
        self.mouse_pos = (x, y);

        if self.current_tool != Tool::Select {
            if self.paused && self.selection.is_active() && self.selection.rect.contains((x, y)) {
                self.current_shape = None;
                self.drag_start = Some((x, y));
            }
            return ;
        }
        if self.paused {
            return ;
        }
        self.drag_start = Some((x, y));
        self.drag_origin = Some(self.selection.rect);

        let zone = get_cursor_zone(&self.selection.rect, self.mouse_pos, Some(EDGE_MARGIN));

        self.drag_mode = Some(
            match zone {
                SelectionHitZone::Outside => DragMode::Create,
                SelectionHitZone::Inside => DragMode::Move,
                z => DragMode::Resize(z),
            },
        );

        self.selection = Selection::dragging(self.selection.rect);
    }

    /// Follows the pointer, `(dx, dy)` away from where the drag began; once
    /// paused, the selection geometry no longer follows it.
    pub fn update_drag(&mut self, dx: i32, dy: i32)
        ensures
            final(self)@ == old(self)@.after_update_drag(dx, dy),
            old(self)@.wf() ==> final(self)@.wf(),
    {
        let (start_x, start_y) = match self.drag_start {
            Some(p) => p,
            None => {
                return ;
            },
        };
        let cx = add_sat(start_x, dx);
        let cy = add_sat(start_y, dy);

        if self.current_tool != Tool::Select {
            self.mouse_pos = (cx, cy);
            self.current_shape = self.get_current_shape();
            return ;
        }
        if self.paused {
            return ;
        }
        let origin = match self.drag_origin {
            Some(o) => o,
            None => {
                return ;
            },
        };
        let mode = match self.drag_mode {
            Some(m) => m,
            None => {
                return ;
            },
        };

        match mode {
            DragMode::Create => {
                self.selection.rect.x = if start_x <= cx { start_x } else { cx };
                self.selection.rect.y = if start_y <= cy { start_y } else { cy };
                self.selection.rect.w = saturate_i32(abs_i64(cx as i64 - start_x as i64));
                self.selection.rect.h = saturate_i32(abs_i64(cy as i64 - start_y as i64));
            },
            DragMode::Move => {
                self.selection.rect.x = add_sat(origin.x, dx);
                self.selection.rect.y = add_sat(origin.y, dy);
            },
            DragMode::Resize(zone) => {
                self.selection.rect = self.resize_rect(&zone, dx, dy);
            },
        }

        self.mouse_pos = (cx, cy);
    }

    /// Ends the drag and drops its transient fields.
    pub fn end_drag(&mut self)
        ensures
            final(self)@ == old(self)@.after_end_drag(),
            old(self)@.wf() ==> final(self)@.wf(),
    {
        self.drag_start = None;
        self.drag_origin = None;
        self.drag_mode = None;
        self.current_shape = None;

        if self.selection.is_active() && !self.selection.rect.is_empty() {
            self.selection = Selection::finalized(self.selection.rect);
        } else {
            self.selection = Selection::idle();
        }
    }

    pub fn set_mouse_pos(&mut self, pos: (i32, i32))
        ensures
            final(self)@ == (StateView { mouse_pos: pos, ..old(self)@ }),
    {
        self.mouse_pos = pos;
    }

    /// The selected part of `source`, cropped for export.
    pub fn export_selection(&self, source: &Surface) -> (r: Result<Surface, BlurError>)
        requires
            source@.wf(),
        ensures
            r is Ok <==> side_ok(self@.rect.w) && side_ok(self@.rect.h),
            r is Err ==> r == Err::<Surface, BlurError>(BlurError::InvalidSize),
            r matches Ok(s) ==> s@ == region_of(
                source@,
                self@.rect.x as int,
                self@.rect.y as int,
                self@.rect.w as int,
                self@.rect.h as int,
            ) && s@.wf(),
    {
        export_selection(source, self)
    }

    /// The preview shape of the annotation drag in progress.
    pub fn get_current_shape(&self) -> (r: Option<Shape>)
        requires
            self@.drag_start is Some,
        ensures
            r == preview_shape(self@.tool, self@.drag_start->0, self@.mouse_pos, self@.color),
    {
        let from = self.drag_start.unwrap();
        let to = self.mouse_pos;

        match self.current_tool {
            Tool::Arrow => Some(Shape::Arrow { from, to, color: self.current_color }),
            Tool::Rectangle => Some(
                Shape::Rectangle { rect: Self::rect_from_points(from, to), color: self.current_color },
            ),
            Tool::Blur => Some(Shape::Blur { rect: Self::rect_from_points(from, to) }),
            Tool::Select => None,
        }
    }

    /// The drag origin resized through `zone` by `(x, y)`.
    pub fn resize_rect(&self, zone: &SelectionHitZone, x: i32, y: i32) -> (r: Rect)
        requires
            self@.drag_origin is Some,
        ensures
            r == resized(self@.drag_origin->0, *zone, x, y),
    {
        let origin = self.drag_origin.unwrap();
        let mut rect = origin;

        match zone {
            SelectionHitZone::NW => {
                rect.x = add_sat(origin.x, x);
                rect.y = add_sat(origin.y, y);
                rect.w = at_least_one(origin.w as i64 - x as i64);
                rect.h = at_least_one(origin.h as i64 - y as i64);
            },
            SelectionHitZone::NE => {
                rect.y = add_sat(origin.y, y);
                rect.w = at_least_one(origin.w as i64 + x as i64);
                rect.h = at_least_one(origin.h as i64 - y as i64);
            },
            SelectionHitZone::SE => {
                rect.w = at_least_one(origin.w as i64 + x as i64);
                rect.h = at_least_one(origin.h as i64 + y as i64);
            },
            SelectionHitZone::SW => {
                rect.x = add_sat(origin.x, x);
                rect.w = at_least_one(origin.w as i64 - x as i64);
                rect.h = at_least_one(origin.h as i64 + y as i64);
            },
            SelectionHitZone::N => {
                rect.y = add_sat(origin.y, y);
                rect.h = at_least_one(origin.h as i64 - y as i64);
            },
            SelectionHitZone::S => {
                rect.h = at_least_one(origin.h as i64 + y as i64);
            },
            SelectionHitZone::W => {
                rect.x = add_sat(origin.x, x);
                rect.w = at_least_one(origin.w as i64 - x as i64);
            },
            SelectionHitZone::E => {
                rect.w = at_least_one(origin.w as i64 + x as i64);
            },
            _ => {},
        }
        rect
    }

    /// The normalised rectangle between two corner points.
    pub fn rect_from_points(from: (i32, i32), to: (i32, i32)) -> (r: Rect)
        ensures
            r == rect_between(from, to),
    {
        let x1 = if from.0 <= to.0 { from.0 } else { to.0 };
        let y1 = if from.1 <= to.1 { from.1 } else { to.1 };
        let x2 = if from.0 <= to.0 { to.0 } else { from.0 };
        let y2 = if from.1 <= to.1 { to.1 } else { from.1 };

        Rect { x: x1, y: y1, w: saturate_i32(x2 as i64 - x1 as i64), h: saturate_i32(y2 as i64 - y1 as i64) }
    }
}

/// A side length of at least one pixel, saturated into `i32`.
fn at_least_one(v: i64) -> (r: i32)
    ensures
        r == clamp_i32(max1(v as int)),
{
    saturate_i32(if v < 1 { 1 } else { v })
}

/// Resizing a non-empty rectangle through any edge or corner, by offsets of
/// any size, leaves both sides at least one pixel long.
pub proof fn lemma_resized_sides(origin: Rect, zone: SelectionHitZone, dx: i32, dy: i32)
    requires
        origin.wf(),
        !origin.is_empty_spec(),
        zone.is_resize(),
    ensures
        resized(origin, zone, dx, dy).w >= 1,
        resized(origin, zone, dx, dy).h >= 1,
{
}

/// A geometry drag that begins on an edge or a corner of the selection
/// keeps both sides of the selection at least one pixel long, however far
/// the pointer then moves.
pub proof fn lemma_resize_floor(s: StateView, x: i32, y: i32, dx: i32, dy: i32)
    requires
        s.wf(),
        s.tool == Tool::Select,
        !s.paused,
        s.after_begin_drag(x, y).drag_mode matches Some(DragMode::Resize(_)),
    ensures
        s.after_begin_drag(x, y).after_update_drag(dx, dy).rect.w >= 1,
        s.after_begin_drag(x, y).after_update_drag(dx, dy).rect.h >= 1,
{
    let zone = zone_of(s.rect, (x, y), EDGE_MARGIN as int);
    assert(zone.is_resize());
    lemma_resized_sides(s.rect, zone, dx, dy);
}

/// Once annotation mode is on, starting or continuing a drag never moves,
/// resizes or re-phases the selection.
pub proof fn lemma_pause_freezes_geometry(s: StateView, x: i32, y: i32, dx: i32, dy: i32)
    requires
        s.paused,
    ensures
        s.after_begin_drag(x, y).rect == s.rect,
        s.after_begin_drag(x, y).phase == s.phase,
        s.after_update_drag(dx, dy).rect == s.rect,
        s.after_update_drag(dx, dy).phase == s.phase,
{
}

/// Width of the border band, in pixels, within which a point grabs an edge.
pub const EDGE_MARGIN: i32 = 10;

} // verus!
