//! Geometry of the borderless window chrome: where a point falls on the
//! resize band, where the helper window goes, and which style bits the
//! owner keeps.
use vstd::prelude::*;

verus! {

/// Width in pixels of the invisible resize band around the owner window.
pub const RESIZE_BAND_THICKNESS: i32 = 8;

/// Width in pixels of the resize frame inside the owner window itself.
pub const OWNER_FRAME_THICKNESS: i32 = 4;

/// Title bar and border bits of a window style.
pub const WS_CAPTION: u32 = 0x00C0_0000;

/// Sizing border, system menu, minimise and maximise box bits.
pub const WS_KEPT_FRAME: u32 = 0x000F_0000;

/// A rectangle in screen coordinates; `right` and `bottom` are exclusive.
#[derive(Clone, Copy, PartialEq, Eq, Debug)]
pub struct Rect {
    pub left: i32,
    pub top: i32,
    pub right: i32,
    pub bottom: i32,
}

/// Where a point falls on a window, as the system's hit-test answers name it.
#[derive(Clone, Copy, PartialEq, Eq, Structural, Debug)]
pub enum HitZone {
    /// Outside every band: clicks pass through.
    Nowhere,
    Client,
    Caption,
    Left,
    Right,
    Top,
    TopLeft,
    TopRight,
    Bottom,
    BottomLeft,
    BottomRight,
}

/// The system's hit-test code of each zone.
pub open spec fn zone_code(z: HitZone) -> int {
    match z {
        HitZone::Nowhere => -1,
        HitZone::Client => 1,
        HitZone::Caption => 2,
        HitZone::Left => 10,
        HitZone::Right => 11,
        HitZone::Top => 12,
        HitZone::TopLeft => 13,
        HitZone::TopRight => 14,
        HitZone::Bottom => 15,
        HitZone::BottomLeft => 16,
        HitZone::BottomRight => 17,
    }
}

/// The sizing direction of a resize zone, as the system's sizing command
/// names it; none for the other zones.
pub open spec fn sizing_direction(z: HitZone) -> Option<u32> {
    match z {
        HitZone::Left => Some(1),
        HitZone::Right => Some(2),
        HitZone::Top => Some(3),
        HitZone::TopLeft => Some(4),
        HitZone::TopRight => Some(5),
        HitZone::Bottom => Some(6),
        HitZone::BottomLeft => Some(7),
        HitZone::BottomRight => Some(8),
        _ => None,
    }
}

impl HitZone {
    /// The hit-test code the window procedure returns for this zone.
    pub fn code(self) -> (c: isize)
        ensures
            c as int == zone_code(self),
    {
        match self {
            HitZone::Nowhere => -1,
            HitZone::Client => 1,
            HitZone::Caption => 2,
            HitZone::Left => 10,
            HitZone::Right => 11,
            HitZone::Top => 12,
            HitZone::TopLeft => 13,
            HitZone::TopRight => 14,
            HitZone::Bottom => 15,
            HitZone::BottomLeft => 16,
            HitZone::BottomRight => 17,
        }
    }

    /// The sizing direction to hand to the owner's system resize command.
    pub fn sizing_direction(self) -> (d: Option<u32>)
        ensures
            d == sizing_direction(self),
    {
        match self {
            HitZone::Left => Some(1),
            HitZone::Right => Some(2),
            HitZone::Top => Some(3),
            HitZone::TopLeft => Some(4),
            HitZone::TopRight => Some(5),
            HitZone::Bottom => Some(6),
            HitZone::BottomLeft => Some(7),
            HitZone::BottomRight => Some(8),
            _ => None,
        }
    }
}

pub open spec fn near_left(r: Rect, t: int, x: int) -> bool {
    x < r.left + t
}

pub open spec fn near_right(r: Rect, t: int, x: int) -> bool {
    x >= r.right - t
}

pub open spec fn near_top(r: Rect, t: int, y: int) -> bool {
    y < r.top + t
}

pub open spec fn near_bottom(r: Rect, t: int, y: int) -> bool {
    y >= r.bottom - t
}

/// The zone of a point on a band of thickness `t` along the inside of `r`:
/// corners before edges, top before left, right, bottom.
pub open spec fn band_zone(r: Rect, t: int, x: int, y: int) -> HitZone {
    let l = near_left(r, t, x);
    let rt = near_right(r, t, x);
    let tp = near_top(r, t, y);
    let b = near_bottom(r, t, y);
    if tp && l {
        HitZone::TopLeft
    } else if tp && rt {
        HitZone::TopRight
    } else if b && l {
        HitZone::BottomLeft
    } else if b && rt {
        HitZone::BottomRight
    } else if tp {
        HitZone::Top
    } else if l {
        HitZone::Left
    } else if rt {
        HitZone::Right
    } else if b {
        HitZone::Bottom
    } else {
        HitZone::Nowhere
    }
}

/// The zone of a point on the owner window: its resize frame, else the
/// caption band of height `caption` at the top, else the client area.
pub open spec fn owner_zone(r: Rect, caption: int, x: int, y: int) -> HitZone {
    let z = band_zone(r, OWNER_FRAME_THICKNESS as int, x, y);
    if z != HitZone::Nowhere {
        z
    } else if 0 <= y - r.top && y - r.top < caption {
        HitZone::Caption
    } else {
        HitZone::Client
    }
}

/// Classifies a point on a band of thickness `t` inside `r`.
pub fn band_hit_test(r: Rect, t: i32, x: i32, y: i32) -> (z: HitZone)
    ensures
        z == band_zone(r, t as int, x as int, y as int),
{
    let t = t as i64;
    let x = x as i64;
    let y = y as i64;
    let on_left = x < r.left as i64 + t;
    let on_right = x >= r.right as i64 - t;
    let on_top = y < r.top as i64 + t;
    let on_bottom = y >= r.bottom as i64 - t;
    if on_top && on_left {
        HitZone::TopLeft
    } else if on_top && on_right {
        HitZone::TopRight
    } else if on_bottom && on_left {
        HitZone::BottomLeft
    } else if on_bottom && on_right {
        HitZone::BottomRight
    } else if on_top {
        HitZone::Top
    } else if on_left {
        HitZone::Left
    } else if on_right {
        HitZone::Right
    } else if on_bottom {
        HitZone::Bottom
    } else {
        HitZone::Nowhere
    }
}

/// Classifies a point on the helper window whose bounds are `r`.
pub fn helper_hit_test(r: Rect, x: i32, y: i32) -> (z: HitZone)
    ensures
        z == band_zone(r, RESIZE_BAND_THICKNESS as int, x as int, y as int),
{
    band_hit_test(r, RESIZE_BAND_THICKNESS, x, y)
}

/// Classifies a point on the owner window whose bounds are `r`, with a
/// draggable caption band `caption_height_px` high.
pub fn owner_hit_test(r: Rect, caption_height_px: i32, x: i32, y: i32) -> (z: HitZone)
    ensures
        z == owner_zone(r, caption_height_px as int, x as int, y as int),
{
    let z = band_hit_test(r, OWNER_FRAME_THICKNESS, x, y);
    if z != HitZone::Nowhere {
        return z;
    }
    let py = y as i64 - r.top as i64;
    if 0 <= py && py < caption_height_px as i64 {
        HitZone::Caption
    } else {
        HitZone::Client
    }
}

/// A 16-bit word read as a two's-complement signed value.
pub open spec fn signed_word(w: int) -> int {
    if w >= 0x8000 {
        w - 0x1_0000
    } else {
        w
    }
}

/// The screen point packed in a hit-test message's parameter: the low word
/// is x and the next word is y, each signed.
pub fn point_from_lparam(lparam: u64) -> (p: (i32, i32))
    ensures
        p.0 == signed_word(lparam as int % 0x1_0000),
        p.1 == signed_word((lparam as int / 0x1_0000) % 0x1_0000),
{
    let lo = lparam & 0xFFFF;
    let hi = (lparam >> 16u64) & 0xFFFF;
    assert(lo == lparam % 0x1_0000 && hi == (lparam / 0x1_0000) % 0x1_0000) by (bit_vector)
        requires
            lo == lparam & 0xFFFF,
            hi == (lparam >> 16u64) & 0xFFFF,
    ;
    let x: i32 = if lo >= 0x8000 { lo as i32 - 0x1_0000 } else { lo as i32 };
    let y: i32 = if hi >= 0x8000 { hi as i32 - 0x1_0000 } else { hi as i32 };
    (x, y)
}

/// Where the helper window goes: position and size.
#[derive(Clone, Copy, PartialEq, Eq, Debug)]
pub struct Placement {
    pub x: i32,
    pub y: i32,
    pub width: i32,
    pub height: i32,
}

/// Whether a value fits in an `i32`.
pub open spec fn fits_i32(v: int) -> bool {
    i32::MIN <= v <= i32::MAX
}

/// The owner's bounds grown by `t` on every side, as position and size.
pub open spec fn grown(owner: Rect, t: int) -> (int, int, int, int) {
    (owner.left - t, owner.top - t, owner.right - owner.left + 2 * t, owner.bottom - owner.top + 2 * t)
}

/// The helper's placement for an owner with bounds `owner`: the same
/// rectangle grown by the band thickness on every side. None where a
/// coordinate or size would not fit in an `i32`.
pub fn helper_placement(owner: Rect) -> (p: Option<Placement>)
    ensures
        ({
            let (x, y, w, h) = grown(owner, RESIZE_BAND_THICKNESS as int);
            match p {
                Some(p) => fits_i32(x) && fits_i32(y) && fits_i32(w) && fits_i32(h) && p.x == x
                    && p.y == y && p.width == w && p.height == h,
                None => !(fits_i32(x) && fits_i32(y) && fits_i32(w) && fits_i32(h)),
            }
        }),
{
    let t = RESIZE_BAND_THICKNESS as i64;
    let x = owner.left as i64 - t;
    let y = owner.top as i64 - t;
    let w = owner.right as i64 - owner.left as i64 + 2 * t;
    let h = owner.bottom as i64 - owner.top as i64 + 2 * t;
    let lo = i32::MIN as i64;
    let hi = i32::MAX as i64;
    if lo <= x && x <= hi && lo <= y && y <= hi && lo <= w && w <= hi && lo <= h && h <= hi {
        Some(Placement { x: x as i32, y: y as i32, width: w as i32, height: h as i32 })
    } else {
        None
    }
}

/// The owner's style without its caption: the caption bits cleared, the
/// sizing border, system menu and minimise and maximise boxes set, every
/// other bit as it was.
pub fn borderless_style(style: u32) -> (r: u32)
    ensures
        r & WS_CAPTION == 0,
        r & WS_KEPT_FRAME == WS_KEPT_FRAME,
        r & !(WS_CAPTION | WS_KEPT_FRAME) == style & !(WS_CAPTION | WS_KEPT_FRAME),
{
    let r = (style & !WS_CAPTION) | WS_KEPT_FRAME;
    assert(WS_CAPTION | WS_KEPT_FRAME == 0x00CF_0000u32) by (bit_vector);
    assert(r & 0x00C0_0000u32 == 0 && r & 0x000F_0000u32 == 0x000F_0000u32 && r & !0x00CF_0000u32
        == style & !0x00CF_0000u32) by (bit_vector)
        requires
            r == (style & !0x00C0_0000u32) | 0x000F_0000u32,
    ;
    r
}

/// A point on the helper band is classified by the edges it lies near:
/// near exactly one edge, that edge; near exactly two adjacent edges, their
/// corner; near none, no hit.
pub proof fn lemma_band_classification(r: Rect, t: int, x: int, y: int)
    ensures
        ({
            let l = near_left(r, t, x);
            let rt = near_right(r, t, x);
            let tp = near_top(r, t, y);
            let b = near_bottom(r, t, y);
            let z = band_zone(r, t, x, y);
            &&& (l && !rt && !tp && !b ==> z == HitZone::Left)
            &&& (!l && rt && !tp && !b ==> z == HitZone::Right)
            &&& (!l && !rt && tp && !b ==> z == HitZone::Top)
            &&& (!l && !rt && !tp && b ==> z == HitZone::Bottom)
            &&& (l && !rt && tp && !b ==> z == HitZone::TopLeft)
            &&& (!l && rt && tp && !b ==> z == HitZone::TopRight)
            &&& (l && !rt && !tp && b ==> z == HitZone::BottomLeft)
            &&& (!l && rt && !tp && b ==> z == HitZone::BottomRight)
            &&& (!l && !rt && !tp && !b ==> z == HitZone::Nowhere)
        }),
{
}

} // verus!
