//! Where the popup opens relative to the click, and when a click falls
//! outside it.
use vstd::prelude::*;

use crate::calendar::date::{date_before, Date};

verus! {

/// The width of the popup.
pub const POPUP_WIDTH: i32 = 398;

/// The height assumed for the popup when placing it.
pub const POPUP_HEIGHT_ESTIMATE: i32 = 520;

/// The gap between the click and the top of the popup.
pub const POPUP_GAP_Y: i32 = 12;

/// The smallest distance between the popup and the monitor edge.
pub const SCREEN_MARGIN: i32 = 4;

/// `v` clamped to `lo..=hi`.
pub open spec fn clamp_int(v: int, lo: int, hi: int) -> int {
    if v < lo {
        lo
    } else if v > hi {
        hi
    } else {
        v
    }
}

/// The larger of two integers.
pub open spec fn max_int(a: int, b: int) -> int {
    if a >= b {
        a
    } else {
        b
    }
}

/// The popup's top-left corner in monitor coordinates: at the click's x and
/// 12 pixels below it, kept at least 4 pixels inside the monitor.
pub open spec fn popup_origin_spec(
    pointer_x: int,
    pointer_y: int,
    origin_x: int,
    origin_y: int,
    width: int,
    height: int,
) -> (int, int) {
    let max_x = max_int(width - POPUP_WIDTH - SCREEN_MARGIN, SCREEN_MARGIN as int);
    let max_y = max_int(height - POPUP_HEIGHT_ESTIMATE - SCREEN_MARGIN, SCREEN_MARGIN as int);
    (
        clamp_int(pointer_x - origin_x, SCREEN_MARGIN as int, max_x),
        clamp_int(pointer_y - origin_y + POPUP_GAP_Y, SCREEN_MARGIN as int, max_y),
    )
}

/// Whether all intermediate values of the placement fit in an `i32`.
pub open spec fn placement_fits(
    pointer_x: int,
    pointer_y: int,
    origin_x: int,
    origin_y: int,
    width: int,
    height: int,
) -> bool {
    &&& i32::MIN <= pointer_x - origin_x <= i32::MAX
    &&& i32::MIN <= pointer_y - origin_y <= i32::MAX
    &&& i32::MIN <= pointer_y - origin_y + POPUP_GAP_Y <= i32::MAX
    &&& i32::MIN <= width - POPUP_WIDTH - SCREEN_MARGIN
    &&& i32::MIN <= height - POPUP_HEIGHT_ESTIMATE - SCREEN_MARGIN
}

fn clamp_i32(v: i32, lo: i32, hi: i32) -> (r: i32)
    requires
        lo <= hi,
    ensures
        r == clamp_int(v as int, lo as int, hi as int),
{
    if v < lo {
        lo
    } else if v > hi {
        hi
    } else {
        v
    }
}

/// The popup's top-left corner in monitor coordinates.
pub fn popup_origin(
    pointer_x: i32,
    pointer_y: i32,
    origin_x: i32,
    origin_y: i32,
    width: i32,
    height: i32,
) -> (r: (i32, i32))
    requires
        placement_fits(
            pointer_x as int,
            pointer_y as int,
            origin_x as int,
            origin_y as int,
            width as int,
            height as int,
        ),
    ensures
        (r.0 as int, r.1 as int) == popup_origin_spec(
            pointer_x as int,
            pointer_y as int,
            origin_x as int,
            origin_y as int,
            width as int,
            height as int,
        ),
{
    let local_x = pointer_x - origin_x;
    let local_y = pointer_y - origin_y;
    let mx = width - POPUP_WIDTH - SCREEN_MARGIN;
    let max_x = if mx >= SCREEN_MARGIN {
        mx
    } else {
        SCREEN_MARGIN
    };
    let my = height - POPUP_HEIGHT_ESTIMATE - SCREEN_MARGIN;
    let max_y = if my >= SCREEN_MARGIN {
        my
    } else {
        SCREEN_MARGIN
    };
    let popup_x = clamp_i32(local_x, SCREEN_MARGIN, max_x);
    let popup_y = clamp_i32(local_y + POPUP_GAP_Y, SCREEN_MARGIN, max_y);
    (popup_x, popup_y)
}

/// The layer-shell margins and the screen bounds of the popup.
#[derive(Clone, Copy, Debug, PartialEq, Eq)]
pub struct PopupPosition {
    pub margin_top: i32,
    pub margin_right: i32,
    pub bounds: (i32, i32, i32, i32),
}

/// Where the popup goes on a monitor `(x, y, width, height, reserved_top)`
/// for a click at `pointer`: the top margin counts from the reserved strip,
/// the right margin from the right edge, and the bounds are in desktop
/// coordinates.
pub open spec fn placement_spec(pointer: (i32, i32), monitor: (i32, i32, i32, i32, i32), p: PopupPosition) -> bool {
    let (px, py) = popup_origin_spec(
        pointer.0 as int,
        pointer.1 as int,
        monitor.0 as int,
        monitor.1 as int,
        monitor.2 as int,
        monitor.3 as int,
    );
    &&& p.margin_top == max_int(py - monitor.4, 0)
    &&& p.margin_right == max_int(monitor.2 - px - POPUP_WIDTH, SCREEN_MARGIN as int)
    &&& p.bounds.0 == monitor.0 + px
    &&& p.bounds.1 == monitor.1 + max_int(py, monitor.4 as int)
    &&& p.bounds.2 == POPUP_WIDTH
    &&& p.bounds.3 == POPUP_HEIGHT_ESTIMATE
}

/// Whether the placement of a click on a monitor fits in `i32` values.
pub open spec fn position_fits(pointer: (i32, i32), monitor: (i32, i32, i32, i32, i32)) -> bool {
    let (px, py) = popup_origin_spec(
        pointer.0 as int,
        pointer.1 as int,
        monitor.0 as int,
        monitor.1 as int,
        monitor.2 as int,
        monitor.3 as int,
    );
    &&& placement_fits(
        pointer.0 as int,
        pointer.1 as int,
        monitor.0 as int,
        monitor.1 as int,
        monitor.2 as int,
        monitor.3 as int,
    )
    &&& i32::MIN <= py - monitor.4 <= i32::MAX
    &&& i32::MIN <= monitor.2 - px - POPUP_WIDTH <= i32::MAX
    &&& i32::MIN <= monitor.0 + px <= i32::MAX
    &&& i32::MIN <= monitor.1 + max_int(py, monitor.4 as int) <= i32::MAX
}

/// The margins and bounds of the popup for a click on a monitor.
pub fn popup_placement(pointer: (i32, i32), monitor: (i32, i32, i32, i32, i32)) -> (r: PopupPosition)
    requires
        position_fits(pointer, monitor),
    ensures
        placement_spec(pointer, monitor, r),
{
    let (origin_x, origin_y, width, height, reserved_top) = monitor;
    let (popup_x, popup_y) = popup_origin(pointer.0, pointer.1, origin_x, origin_y, width, height);
    let top = popup_y - reserved_top;
    let right = width - popup_x - POPUP_WIDTH;
    let shown_y = if popup_y >= reserved_top {
        popup_y
    } else {
        reserved_top
    };
    PopupPosition {
        margin_top: if top >= 0 {
            top
        } else {
            0
        },
        margin_right: if right >= SCREEN_MARGIN {
            right
        } else {
            SCREEN_MARGIN
        },
        bounds: (origin_x + popup_x, origin_y + shown_y, POPUP_WIDTH, POPUP_HEIGHT_ESTIMATE),
    }
}

/// The popup's placement, when the pointer and monitor values keep every
/// step of it within `i32`; `None` otherwise.
pub fn place_popup(pointer: (i32, i32), monitor: (i32, i32, i32, i32, i32)) -> (r: Option<
    PopupPosition,
>)
    ensures
        r is Some <==> position_fits(pointer, monitor),
        r matches Some(p) ==> placement_spec(pointer, monitor, p),
{
    let (px, py) = (pointer.0 as i64, pointer.1 as i64);
    let (ox, oy, w, h, top) = (
        monitor.0 as i64,
        monitor.1 as i64,
        monitor.2 as i64,
        monitor.3 as i64,
        monitor.4 as i64,
    );
    let lo = i32::MIN as i64;
    let hi = i32::MAX as i64;
    let fits_steps = lo <= px - ox && px - ox <= hi && lo <= py - oy && py - oy <= hi && lo <= py
        - oy + 12 && py - oy + 12 <= hi && lo <= w - 398 - 4 && lo <= h - 520 - 4;
    if !fits_steps {
        return None;
    }
    let (x, y) = popup_origin(pointer.0, pointer.1, monitor.0, monitor.1, monitor.2, monitor.3);
    let (x, y) = (x as i64, y as i64);
    let shown = if y >= top {
        y
    } else {
        top
    };
    if lo <= y - top && y - top <= hi && lo <= w - x - 398 && w - x - 398 <= hi && lo <= ox + x
        && ox + x <= hi && lo <= oy + shown && oy + shown <= hi {
        Some(popup_placement(pointer, monitor))
    } else {
        None
    }
}

/// Inside the monitor, the popup opens at the click's x and 12 pixels
/// below it; wherever the click is, the popup keeps a 4 pixel margin on
/// the left and top and, on a monitor wide and tall enough for it, on the
/// right and bottom too.
pub proof fn lemma_popup_below_click(
    pointer_x: int,
    pointer_y: int,
    origin_x: int,
    origin_y: int,
    width: int,
    height: int,
)
    ensures
        ({
            let (x, y) = popup_origin_spec(pointer_x, pointer_y, origin_x, origin_y, width, height);
            &&& SCREEN_MARGIN <= pointer_x - origin_x <= width - POPUP_WIDTH - SCREEN_MARGIN ==> x
                == pointer_x - origin_x
            &&& SCREEN_MARGIN <= pointer_y - origin_y + POPUP_GAP_Y <= height - POPUP_HEIGHT_ESTIMATE
                - SCREEN_MARGIN ==> y == pointer_y - origin_y + POPUP_GAP_Y
            &&& x >= SCREEN_MARGIN && y >= SCREEN_MARGIN
            &&& width >= POPUP_WIDTH + 2 * SCREEN_MARGIN ==> x + POPUP_WIDTH <= width - SCREEN_MARGIN
            &&& height >= POPUP_HEIGHT_ESTIMATE + 2 * SCREEN_MARGIN ==> y + POPUP_HEIGHT_ESTIMATE
                <= height - SCREEN_MARGIN
        }),
{
}

/// Whether a pointer lies outside the popup's bounds; an unknown popup or
/// pointer counts as outside.
pub open spec fn outside_spec(bounds: Option<(i32, i32, i32, i32)>, pointer: Option<(i32, i32)>) -> bool {
    match (bounds, pointer) {
        (Some((x, y, w, h)), Some((px, py))) => px < x || px >= x + w || py < y || py >= y + h,
        _ => true,
    }
}

/// Whether a pointer lies outside the popup's bounds.
pub fn pointer_is_outside(bounds: Option<(i32, i32, i32, i32)>, pointer: Option<(i32, i32)>) -> (r: bool)
    ensures
        r == outside_spec(bounds, pointer),
{
    match (bounds, pointer) {
        (Some((x, y, w, h)), Some((px, py))) => {
            let (x, y, w, h) = (x as i64, y as i64, w as i64, h as i64);
            let (px, py) = (px as i64, py as i64);
            px < x || px >= x + w || py < y || py >= y + h
        },
        _ => true,
    }
}

/// Whether a new event may be created on `date`: not before `today`.
pub fn can_create_event(date: Date, today: Date) -> (r: bool)
    ensures
        r == !date_before(date, today),
{
    !date.is_before(&today)
}

/// The presentation after `id`, counting around at the end of `u64`.
pub open spec fn next_presentation(id: u64) -> u64 {
    if id == u64::MAX {
        0
    } else {
        (id + 1) as u64
    }
}

/// What the popup window knows of its current presentation: which one it
/// is, whether a click outside may dismiss it yet, and where it is shown.
#[derive(Clone, Copy, Debug)]
pub struct PopupPresence {
    pub presentation_id: u64,
    pub dismiss_armed: bool,
    pub bounds: Option<(i32, i32, i32, i32)>,
}

impl PopupPresence {
    /// A popup that was never shown.
    pub fn new() -> (r: PopupPresence)
        ensures
            r.presentation_id == 0,
            !r.dismiss_armed,
            r.bounds is None,
    {
        PopupPresence { presentation_id: 0, dismiss_armed: false, bounds: None }
    }

    /// Starts a new presentation at `bounds`, not yet dismissable; returns
    /// its id.
    pub fn present(&mut self, bounds: (i32, i32, i32, i32)) -> (id: u64)
        ensures
            id == next_presentation(old(self).presentation_id),
            final(self).presentation_id == id,
            !final(self).dismiss_armed,
            final(self).bounds == Some(bounds),
    {
        self.presentation_id = if self.presentation_id == u64::MAX {
            0
        } else {
            self.presentation_id + 1
        };
        self.dismiss_armed = false;
        self.bounds = Some(bounds);
        self.presentation_id
    }

    /// Ends the presentation: the popup is hidden.
    pub fn end_presentation(&mut self)
        ensures
            final(self).presentation_id == next_presentation(old(self).presentation_id),
            !final(self).dismiss_armed,
            final(self).bounds is None,
    {
        self.presentation_id = if self.presentation_id == u64::MAX {
            0
        } else {
            self.presentation_id + 1
        };
        self.dismiss_armed = false;
        self.bounds = None;
    }

    /// Lets a click outside dismiss presentation `id`, when it is still the
    /// current one and the popup is visible; returns whether it did.
    pub fn arm(&mut self, id: u64, visible: bool) -> (armed: bool)
        ensures
            armed == (visible && old(self).presentation_id == id),
            armed ==> *final(self) == (PopupPresence { dismiss_armed: true, ..*old(self) }),
            !armed ==> *final(self) == *old(self),
    {
        if visible && self.presentation_id == id {
            self.dismiss_armed = true;
            true
        } else {
            false
        }
    }

    /// Whether losing the focus dismisses the popup: it is visible, lost
    /// the focus, may be dismissed, and the pointer is outside it.
    pub fn dismisses(&self, focused: bool, visible: bool, pointer: Option<(i32, i32)>) -> (r: bool)
        ensures
            r == (!focused && visible && self.dismiss_armed && outside_spec(self.bounds, pointer)),
    {
        !focused && visible && self.dismiss_armed && pointer_is_outside(self.bounds, pointer)
    }
}

/// A timer of an earlier presentation cannot arm a newer one: once the
/// popup is presented or hidden again, arming with the old presentation's
/// id changes nothing.
pub proof fn lemma_stale_arming_is_ignored(shown: PopupPresence, id: u64, now: PopupPresence)
    requires
        shown.presentation_id == id,
        now.presentation_id == next_presentation(shown.presentation_id),
    ensures
        now.presentation_id != id,
{
}

/// Whether a monitor (x, y, width, height, reserved top) holds a point.
pub open spec fn holds_point(m: (i32, i32, i32, i32, i32), p: (i32, i32)) -> bool {
    p.0 >= m.0 && p.1 >= m.1 && p.0 < m.0 + m.2 && p.1 < m.1 + m.3
}

/// The first monitor of a list that holds a point.
pub open spec fn first_monitor(ms: Seq<(i32, i32, i32, i32, i32)>, p: (i32, i32)) -> Option<
    (i32, i32, i32, i32, i32),
>
    decreases ms.len(),
{
    if ms.len() == 0 {
        None
    } else if holds_point(ms[0], p) {
        Some(ms[0])
    } else {
        first_monitor(ms.drop_first(), p)
    }
}

/// The monitor the pointer is on: the first one that holds it.
pub fn monitor_at(monitors: &Vec<(i32, i32, i32, i32, i32)>, pointer: (i32, i32)) -> (r: Option<
    (i32, i32, i32, i32, i32),
>)
    ensures
        r == first_monitor(monitors@, pointer),
{
    let mut i: usize = 0;
    assert(monitors@.skip(0) =~= monitors@);
    while i < monitors.len()
        invariant
            i <= monitors.len(),
            first_monitor(monitors@, pointer) == first_monitor(monitors@.skip(i as int), pointer),
        decreases monitors.len() - i,
    {
        let m = monitors[i];
        assert(monitors@.skip(i as int)[0] == m);
        assert(monitors@.skip(i as int).drop_first() =~= monitors@.skip(i + 1));
        let (px, py) = (pointer.0 as i64, pointer.1 as i64);
        if px >= m.0 as i64 && py >= m.1 as i64 && px < m.0 as i64 + m.2 as i64 && py < m.1 as i64
            + m.3 as i64 {
            return Some(m);
        }
        i = i + 1;
    }
    None
}

/// The integer the JSON object in `bytes` holds under `key`: `None` when
/// `bytes` is not a JSON object, or the value there is missing or is not an
/// integer that fits an `i64`.
pub uninterp spec fn json_int_field(bytes: Seq<u8>, key: Seq<char>) -> Option<i64>;

/// The integer a JSON object holds under a key.
///
/// Trusted: `serde_json::from_slice::<serde_json::Value>`, `Value::get` and
/// `Value::as_i64`; the result depends on the bytes and the key alone.
#[verifier::external_body]
fn json_object_int(bytes: &[u8], key: &str) -> (r: Option<i64>)
    ensures
        r == json_int_field(bytes@, key@),
{
    serde_json::from_slice::<serde_json::Value>(bytes).ok()?.get(key)?.as_i64()
}

/// The monitors a JSON array in `bytes` lists: for each element in order,
/// its `x`, `y`, `width` and `height` and the second entry of its
/// `reserved`, each when it is an integer that fits an `i64`; `None` when
/// `bytes` is not a JSON array.
pub uninterp spec fn json_monitor_fields(bytes: Seq<u8>) -> Option<Seq<(Option<i64>, Option<i64>, Option<i64>, Option<i64>, Option<i64>)>>;

/// The fields of the monitors a JSON array lists.
///
/// Trusted: `serde_json::from_slice::<serde_json::Value>`,
/// `Value::as_array`, `Value::get` and `Value::as_i64`; the result depends on
/// the bytes alone.
#[verifier::external_body]
fn json_monitors(bytes: &[u8]) -> (r: Option<Vec<(Option<i64>, Option<i64>, Option<i64>, Option<i64>, Option<i64>)>>)
    ensures
        r is None <==> json_monitor_fields(bytes@) is None,
        r matches Some(v) ==> json_monitor_fields(bytes@) == Some(v@),
{
    let value = serde_json::from_slice::<serde_json::Value>(bytes).ok()?;
    Some(value.as_array()?.iter().map(|m| (
        m.get("x").and_then(serde_json::Value::as_i64),
        m.get("y").and_then(serde_json::Value::as_i64),
        m.get("width").and_then(serde_json::Value::as_i64),
        m.get("height").and_then(serde_json::Value::as_i64),
        m.get("reserved").and_then(|r| r.get(1)).and_then(serde_json::Value::as_i64),
    )).collect())
}

/// The pointer position in Hyprland's `cursorpos -j` output: its `x` and
/// `y`, each taken as an `i32` (the low 32 bits); `None` when either is
/// missing.
pub fn pointer_from_json(stdout: &[u8]) -> (r: Option<(i32, i32)>)
    ensures
        r == match (json_int_field(stdout@, "x"@), json_int_field(stdout@, "y"@)) {
            (Some(x), Some(y)) => Some((x as i32, y as i32)),
            _ => None,
        },
{
    let x = json_object_int(stdout, "x");
    let y = json_object_int(stdout, "y");
    match (x, y) {
        (Some(x), Some(y)) => Some((x as i32, y as i32)),
        _ => None,
    }
}

/// The monitor geometries (x, y, width, height, reserved top) of monitor
/// fields: those with all four of x, y, width and height, in order, each
/// taken as an `i32` (the low 32 bits), the reserved top 0 when missing.
pub open spec fn monitor_geometries(fs: Seq<(Option<i64>, Option<i64>, Option<i64>, Option<i64>, Option<i64>)>) -> Seq<(i32, i32, i32, i32, i32)>
    decreases fs.len(),
{
    if fs.len() == 0 {
        Seq::empty()
    } else {
        let rest = monitor_geometries(fs.drop_last());
        let f = fs.last();
        match (f.0, f.1, f.2, f.3) {
            (Some(x), Some(y), Some(w), Some(h)) => rest.push(
                (
                    x as i32,
                    y as i32,
                    w as i32,
                    h as i32,
                    match f.4 {
                        Some(t) => t as i32,
                        None => 0i32,
                    },
                ),
            ),
            _ => rest,
        }
    }
}

/// The monitor that holds the pointer, from Hyprland's `monitors -j`
/// output: the first of its geometries (`monitor_geometries`) that holds
/// it; `None` when the output is not a JSON array or no monitor holds it.
pub fn monitor_from_json(stdout: &[u8], pointer: (i32, i32)) -> (r: Option<
    (i32, i32, i32, i32, i32),
>)
    ensures
        r == match json_monitor_fields(stdout@) {
            Some(fs) => first_monitor(monitor_geometries(fs), pointer),
            None => None,
        },
{
    let fields = match json_monitors(stdout) {
        Some(v) => v,
        None => {
            return None;
        },
    };
    let mut geometries: Vec<(i32, i32, i32, i32, i32)> = Vec::new();
    let mut i: usize = 0;
    while i < fields.len()
        invariant
            i <= fields.len(),
            geometries@ == monitor_geometries(fields@.take(i as int)),
        decreases fields.len() - i,
    {
        let f = fields[i];
        assert(fields@.take(i + 1).drop_last() =~= fields@.take(i as int));
        match (f.0, f.1, f.2, f.3) {
            (Some(x), Some(y), Some(w), Some(h)) => {
                let top: i32 = match f.4 {
                    Some(t) => t as i32,
                    None => 0,
                };
                geometries.push((x as i32, y as i32, w as i32, h as i32, top));
            },
            _ => {},
        }
        i = i + 1;
    }
    assert(fields@.take(fields@.len() as int) =~= fields@);
    monitor_at(&geometries, pointer)
}

} // verus!
