use vstd::prelude::*;

use crate::text::str_eq;

verus! {

/// How far below the cursor the overlay's top edge goes.
pub const CURSOR_OFFSET: i32 = 18;

/// The gap kept between the overlay and the edges of the work area.
pub const MARGIN: i32 = 8;

/// The overlay's size where the window cannot report one.
pub const FALLBACK_WIDTH: i32 = 480;
pub const FALLBACK_HEIGHT: i32 = 180;

/// The part of a monitor that windows may use, in physical pixels.
#[derive(Clone, Copy, Debug, PartialEq, Eq, Structural)]
pub struct WorkArea {
    pub x: i32,
    pub y: i32,
    pub width: i32,
    pub height: i32,
}

/// `v` brought into `[lo, hi]` (`Ord::clamp`, for `lo <= hi`).
pub open spec fn clamp(v: int, lo: int, hi: int) -> int {
    if v < lo {
        lo
    } else if v > hi {
        hi
    } else {
        v
    }
}

pub open spec fn max(a: int, b: int) -> int {
    if a >= b {
        a
    } else {
        b
    }
}

pub open spec fn fits_i32(v: int) -> bool {
    i32::MIN <= v <= i32::MAX
}

/// The overlay's size: the window's own where it reports one, else the fallback.
pub open spec fn overlay_size(size: Option<(i32, i32)>) -> (int, int) {
    match size {
        Some(s) => (s.0 as int, s.1 as int),
        None => (FALLBACK_WIDTH as int, FALLBACK_HEIGHT as int),
    }
}

/// The lowest and highest coordinate at which the overlay's origin keeps the
/// margin inside `[start, start + extent)` on one axis.
pub open spec fn lowest(start: int) -> int {
    start + MARGIN
}

pub open spec fn highest(start: int, extent: int, size: int) -> int {
    start + extent - size - MARGIN
}

/// Where the overlay goes for a cursor at `(cx, cy)`: just below the cursor,
/// moved as little as needed to keep the margin inside the work area. With
/// no work area it goes just below the cursor.
pub open spec fn placement(cx: int, cy: int, area: Option<WorkArea>, size: Option<(i32, i32)>) -> (int, int) {
    match area {
        None => (cx, cy + CURSOR_OFFSET),
        Some(a) => {
            let (w, h) = overlay_size(size);
            let min_x = lowest(a.x as int);
            let min_y = lowest(a.y as int);
            (
                clamp(cx, min_x, max(highest(a.x as int, a.width as int, w), min_x)),
                clamp(cy + CURSOR_OFFSET, min_y, max(highest(a.y as int, a.height as int, h), min_y)),
            )
        },
    }
}

/// Whether every step of `placement`, taken in 32-bit arithmetic in the order
/// the expressions are written, stays in range.
pub open spec fn placement_in_range(cx: int, cy: int, area: Option<WorkArea>, size: Option<(i32, i32)>) -> bool {
    &&& fits_i32(cy + CURSOR_OFFSET)
    &&& match area {
        None => true,
        Some(a) => {
            let (w, h) = overlay_size(size);
            &&& fits_i32(a.x + MARGIN)
            &&& fits_i32(a.y + MARGIN)
            &&& fits_i32(a.x + a.width)
            &&& fits_i32(a.x + a.width - w)
            &&& fits_i32(a.x + a.width - w - MARGIN)
            &&& fits_i32(a.y + a.height)
            &&& fits_i32(a.y + a.height - h)
            &&& fits_i32(a.y + a.height - h - MARGIN)
        },
    }
}

fn add_checked(a: i32, b: i32) -> (r: Option<i32>)
    ensures
        r matches Some(v) ==> v == a + b,
        r is Some <==> fits_i32(a + b),
{
    let s: i64 = a as i64 + b as i64;
    if s < i32::MIN as i64 || s > i32::MAX as i64 {
        None
    } else {
        Some(s as i32)
    }
}

fn sub_checked(a: i32, b: i32) -> (r: Option<i32>)
    ensures
        r matches Some(v) ==> v == a - b,
        r is Some <==> fits_i32(a - b),
{
    let s: i64 = a as i64 - b as i64;
    if s < i32::MIN as i64 || s > i32::MAX as i64 {
        None
    } else {
        Some(s as i32)
    }
}

fn size_or_fallback(size: Option<(i32, i32)>) -> (r: (i32, i32))
    ensures
        (r.0 as int, r.1 as int) == overlay_size(size),
{
    match size {
        Some(s) => s,
        None => (FALLBACK_WIDTH, FALLBACK_HEIGHT),
    }
}

/// Decides `placement_in_range`: whether `overlay_position` may be asked.
pub fn placement_fits(cursor_x: i32, cursor_y: i32, area: Option<WorkArea>, size: Option<(i32, i32)>) -> (b: bool)
    ensures
        b == placement_in_range(cursor_x as int, cursor_y as int, area, size),
{
    if add_checked(cursor_y, CURSOR_OFFSET).is_none() {
        return false;
    }
    match area {
        None => true,
        Some(a) => {
            let (w, h) = size_or_fallback(size);
            if add_checked(a.x, MARGIN).is_none() || add_checked(a.y, MARGIN).is_none() {
                return false;
            }
            let fx = match add_checked(a.x, a.width) {
                Some(v) => match sub_checked(v, w) {
                    Some(u) => sub_checked(u, MARGIN).is_some(),
                    None => false,
                },
                None => false,
            };
            let fy = match add_checked(a.y, a.height) {
                Some(v) => match sub_checked(v, h) {
                    Some(u) => sub_checked(u, MARGIN).is_some(),
                    None => false,
                },
                None => false,
            };
            fx && fy
        },
    }
}

fn clamp_i32(v: i32, lo: i32, hi: i32) -> (r: i32)
    requires
        lo <= hi,
    ensures
        r == clamp(v as int, lo as int, hi as int),
{
    if v < lo {
        lo
    } else if v > hi {
        hi
    } else {
        v
    }
}

/// Where to put the overlay for a cursor at `(cursor_x, cursor_y)` (rounded
/// to whole pixels), the work area of the monitor under it if one is known,
/// and the overlay's size if the window reports one.
pub fn overlay_position(cursor_x: i32, cursor_y: i32, area: Option<WorkArea>, size: Option<(i32, i32)>) -> (p: (i32, i32))
    requires
        placement_in_range(cursor_x as int, cursor_y as int, area, size),
    ensures
        (p.0 as int, p.1 as int) == placement(cursor_x as int, cursor_y as int, area, size),
        area matches Some(a) ==> {
            let (w, h) = overlay_size(size);
            &&& (w + 2 * MARGIN <= a.width ==> a.x + MARGIN <= p.0 && p.0 + w + MARGIN <= a.x + a.width)
            &&& (h + 2 * MARGIN <= a.height ==> a.y + MARGIN <= p.1 && p.1 + h + MARGIN <= a.y + a.height)
        },
        area matches Some(a) ==> (size matches Some(s) ==> {
            &&& (s.0 + 16 <= a.width ==> a.x + 8 <= p.0 && p.0 + s.0 + 8 <= a.x + a.width)
            &&& (s.1 + 16 <= a.height ==> a.y + 8 <= p.1 && p.1 + s.1 + 8 <= a.y + a.height)
        }),
        area matches Some(a) ==> (size is None ==> {
            &&& (480 + 16 <= a.width ==> a.x + 8 <= p.0 && p.0 + 480 + 8 <= a.x + a.width)
            &&& (180 + 16 <= a.height ==> a.y + 8 <= p.1 && p.1 + 180 + 8 <= a.y + a.height)
        }),
        area is None ==> p.0 == cursor_x && p.1 == cursor_y + 18,
{
    let y0 = cursor_y + CURSOR_OFFSET;
    match area {
        None => (cursor_x, y0),
        Some(a) => {
            let (w, h) = size_or_fallback(size);
            let min_x = a.x + MARGIN;
            let min_y = a.y + MARGIN;
            let max_x = a.x + a.width - w - MARGIN;
            let max_y = a.y + a.height - h - MARGIN;
            let hi_x = if max_x >= min_x { max_x } else { min_x };
            let hi_y = if max_y >= min_y { max_y } else { min_y };
            (clamp_i32(cursor_x, min_x, hi_x), clamp_i32(y0, min_y, hi_y))
        },
    }
}

/// Where a work area has room for the overlay and its margins, the overlay
/// lies wholly inside it, margins kept; and where the cursor leaves room
/// below it, the overlay sits exactly `CURSOR_OFFSET` below the cursor.
pub proof fn law_overlay_inside_work_area(cx: int, cy: int, a: WorkArea, size: Option<(i32, i32)>)
    ensures
        ({
            let (w, h) = overlay_size(size);
            let (x, y) = placement(cx, cy, Some(a), size);
            &&& (w + 2 * MARGIN <= a.width ==> a.x + MARGIN <= x && x + w + MARGIN <= a.x + a.width)
            &&& (h + 2 * MARGIN <= a.height ==> a.y + MARGIN <= y && y + h + MARGIN <= a.y + a.height)
            &&& (lowest(a.y as int) <= cy + CURSOR_OFFSET <= highest(a.y as int, a.height as int, h)
                ==> y == cy + CURSOR_OFFSET)
            &&& (lowest(a.x as int) <= cx <= highest(a.x as int, a.width as int, w) ==> x == cx)
        }),
{
}

/// The size the window reports is the size kept inside the work area: for a
/// reported `w` by `h` window and a work area with room for it and 8 px
/// margins, the whole window lies inside with the margins kept; where the
/// spot 18 px below the cursor already leaves the window inside, it goes
/// exactly there. Without a reported size, a 480 by 180 window is kept inside.
pub proof fn law_reported_size_is_kept_inside(cx: int, cy: int, a: WorkArea, w: i32, h: i32)
    ensures
        ({
            let (x, y) = placement(cx, cy, Some(a), Some((w, h)));
            &&& (w + 16 <= a.width ==> a.x + 8 <= x && x + w + 8 <= a.x + a.width)
            &&& (h + 16 <= a.height ==> a.y + 8 <= y && y + h + 8 <= a.y + a.height)
            &&& (a.x + 8 <= cx && cx + w + 8 <= a.x + a.width ==> x == cx)
            &&& (a.y + 8 <= cy + 18 && cy + 18 + h + 8 <= a.y + a.height ==> y == cy + 18)
        }),
        ({
            let (x, y) = placement(cx, cy, Some(a), None);
            &&& (480 + 16 <= a.width ==> a.x + 8 <= x && x + 480 + 8 <= a.x + a.width)
            &&& (180 + 16 <= a.height ==> a.y + 8 <= y && y + 180 + 8 <= a.y + a.height)
        }),
        placement(cx, cy, None, Some((w, h))) == (cx, cy + 18),
{
}

/// Whether the overlay is the window in front: visible and focused, where a
/// query that failed counts as "no".
pub fn is_frontmost(visible: Option<bool>, focused: Option<bool>) -> (b: bool)
    ensures
        b == (visible == Some(true) && focused == Some(true)),
{
    let v = match visible {
        Some(x) => x,
        None => false,
    };
    let f = match focused {
        Some(x) => x,
        None => false,
    };
    v && f
}

/// One thing done to the overlay window.
#[derive(Clone, Copy, Debug, PartialEq, Eq, Structural)]
pub enum WindowAction {
    /// Hide the window.
    Hide,
    /// Make it a floating, always-on-top overlay.
    PrepareOverlay,
    Unminimize,
    /// Move it near the cursor (`overlay_position`).
    PlaceNearCursor,
    Show,
    /// Raise it above other applications' windows.
    BringToFront,
    /// Give it keyboard focus.
    Focus,
    /// Tell the page that it was summoned.
    AnnounceSummon,
}

/// The steps that bring the overlay up near the cursor; a window that is up
/// but not in front is hidden first, so that it comes back on this space.
pub open spec fn summon_view(hide_first: bool) -> Seq<WindowAction> {
    let steps = seq![
        WindowAction::PrepareOverlay,
        WindowAction::Unminimize,
        WindowAction::PlaceNearCursor,
        WindowAction::Show,
        WindowAction::BringToFront,
        WindowAction::Focus,
        WindowAction::BringToFront,
        WindowAction::AnnounceSummon,
    ];
    if hide_first {
        seq![WindowAction::Hide] + steps
    } else {
        steps
    }
}

/// The steps that summon the overlay, given whether it is visible (`None`
/// where the query failed) and whether it is in front.
pub fn summon_actions(visible: Option<bool>, frontmost: bool) -> (r: Vec<WindowAction>)
    ensures
        r@ == summon_view(visible == Some(true) && !frontmost),
{
    let mut r: Vec<WindowAction> = Vec::new();
    let up = match visible {
        Some(x) => x,
        None => false,
    };
    if up && !frontmost {
        r.push(WindowAction::Hide);
    }
    r.push(WindowAction::PrepareOverlay);
    r.push(WindowAction::Unminimize);
    r.push(WindowAction::PlaceNearCursor);
    r.push(WindowAction::Show);
    r.push(WindowAction::BringToFront);
    r.push(WindowAction::Focus);
    r.push(WindowAction::BringToFront);
    r.push(WindowAction::AnnounceSummon);
    r
}

/// The steps of the summon shortcut: a visible overlay is hidden; a hidden
/// one (or one whose visibility cannot be told) is summoned.
pub fn toggle_actions(visible: Option<bool>) -> (r: Vec<WindowAction>)
    ensures
        visible == Some(true) ==> r@ == seq![WindowAction::Hide],
        visible != Some(true) ==> r@ == summon_view(false),
{
    let up = match visible {
        Some(x) => x,
        None => false,
    };
    if up {
        let mut r: Vec<WindowAction> = Vec::new();
        r.push(WindowAction::Hide);
        r
    } else {
        summon_actions(visible, false)
    }
}

/// A command of the tray menu.
#[derive(Clone, Copy, Debug, PartialEq, Eq, Structural)]
pub enum MenuCommand {
    Summon,
    OpenSettings,
    Quit,
    /// An entry this menu does not know.
    Ignore,
}

pub open spec fn menu_command_view(id: Seq<char>) -> MenuCommand {
    if id == "summon"@ {
        MenuCommand::Summon
    } else if id == "settings"@ {
        MenuCommand::OpenSettings
    } else if id == "quit"@ {
        MenuCommand::Quit
    } else {
        MenuCommand::Ignore
    }
}

/// The command of the tray-menu entry with id `id`.
pub fn menu_command(id: &str) -> (c: MenuCommand)
    ensures
        c == menu_command_view(id@),
{
    if str_eq(id, "summon") {
        MenuCommand::Summon
    } else if str_eq(id, "settings") {
        MenuCommand::OpenSettings
    } else if str_eq(id, "quit") {
        MenuCommand::Quit
    } else {
        MenuCommand::Ignore
    }
}

} // verus!
