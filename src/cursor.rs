use vstd::prelude::*;

use crate::numeric::abs_i64;
use crate::state::{abs_int, Rect, SelectionHitZone};

verus! {

/// Classifies `p` against `rect` with a border band of `margin` pixels.
/// Corners win over edges, edges over the interior.
pub open spec fn zone_of(rect: Rect, p: (i32, i32), margin: int) -> SelectionHitZone {
    let left = rect.x as int;
    let right = rect.x + rect.w;
    let top = rect.y as int;
    let bottom = rect.y + rect.h;
    let near_l = abs_int(p.0 - left) <= margin;
    let near_r = abs_int(p.0 - right) <= margin;
    let near_t = abs_int(p.1 - top) <= margin;
    let near_b = abs_int(p.1 - bottom) <= margin;
    let inside_x = left < p.0 < right;
    let inside_y = top < p.1 < bottom;
    if rect.is_empty_spec() {
        SelectionHitZone::Outside
    } else if near_l && near_t {
        SelectionHitZone::NW
    } else if near_r && near_t {
        SelectionHitZone::NE
    } else if near_l && near_b {
        SelectionHitZone::SW
    } else if near_r && near_b {
        SelectionHitZone::SE
    } else if near_t && inside_x {
        SelectionHitZone::N
    } else if near_b && inside_x {
        SelectionHitZone::S
    } else if near_l && inside_y {
        SelectionHitZone::W
    } else if near_r && inside_y {
        SelectionHitZone::E
    } else if inside_x && inside_y {
        SelectionHitZone::Inside
    } else {
        SelectionHitZone::Outside
    }
}

/// The margin used when none is given.
pub open spec fn margin_or_default(margin: Option<i32>) -> int {
    match margin {
        Some(m) => m as int,
        None => 10,
    }
}

/// The hit zone of `mause_pos` on `rect`; the margin defaults to 10 pixels.
pub fn get_cursor_zone(rect: &Rect, mause_pos: (i32, i32), margin: Option<i32>) -> (r: SelectionHitZone)
    ensures
        r == zone_of(*rect, mause_pos, margin_or_default(margin)),
{
    if rect.is_empty() {
        return SelectionHitZone::Outside;
    }
    let margin: i64 = match margin {
        Some(m) => m as i64,
        None => 10,
    };

    let x = mause_pos.0 as i64;
    let y = mause_pos.1 as i64;

    let left = rect.x as i64;
    let right = rect.x as i64 + rect.w as i64;
    let top = rect.y as i64;
    let bottom = rect.y as i64 + rect.h as i64;

    let near_l = abs_i64(x - left) <= margin;
    let near_r = abs_i64(x - right) <= margin;
    let near_t = abs_i64(y - top) <= margin;
    let near_b = abs_i64(y - bottom) <= margin;

    let inside_x = x > left && x < right;
    let inside_y = y > top && y < bottom;

    if near_l && near_t {
        SelectionHitZone::NW
    } else if near_r && near_t {
        SelectionHitZone::NE
    } else if near_l && near_b {
        SelectionHitZone::SW
    } else if near_r && near_b {
        SelectionHitZone::SE
    } else if near_t && inside_x {
        SelectionHitZone::N
    } else if near_b && inside_x {
        SelectionHitZone::S
    } else if near_l && inside_y {
        SelectionHitZone::W
    } else if near_r && inside_y {
        SelectionHitZone::E
    } else if inside_x && inside_y {
        SelectionHitZone::Inside
    } else {
        SelectionHitZone::Outside
    }
}

/// A point within the margin of a horizontal and of a vertical edge of a
/// non-empty rectangle resolves to a corner, never to an edge.
pub proof fn lemma_corner_priority(rect: Rect, p: (i32, i32), margin: int)
    requires
        !rect.is_empty_spec(),
        abs_int(p.0 - rect.x) <= margin || abs_int(p.0 - (rect.x + rect.w)) <= margin,
        abs_int(p.1 - rect.y) <= margin || abs_int(p.1 - (rect.y + rect.h)) <= margin,
    ensures
        zone_of(rect, p, margin).is_corner(),
{
}

/// Name of the pointer cursor shown over a hit zone.
pub open spec fn cursor_name_of(zone: SelectionHitZone) -> Seq<char> {
    match zone {
        SelectionHitZone::Inside => "move"@,
        SelectionHitZone::Outside => "default"@,
        SelectionHitZone::N | SelectionHitZone::S => "ns-resize"@,
        SelectionHitZone::E | SelectionHitZone::W => "ew-resize"@,
        SelectionHitZone::NW | SelectionHitZone::SE => "nwse-resize"@,
        SelectionHitZone::NE | SelectionHitZone::SW => "nesw-resize"@,
    }
}

/// The cursor name for a hit zone.
pub fn cursor_name(zone: &SelectionHitZone) -> (r: &'static str)
    ensures
        r@ == cursor_name_of(*zone),
{
    match zone {
        SelectionHitZone::Inside => "move",
        SelectionHitZone::Outside => "default",
        SelectionHitZone::N | SelectionHitZone::S => "ns-resize",
        SelectionHitZone::E | SelectionHitZone::W => "ew-resize",
        SelectionHitZone::NW | SelectionHitZone::SE => "nwse-resize",
        SelectionHitZone::NE | SelectionHitZone::SW => "nesw-resize",
    }
}

} // verus!
