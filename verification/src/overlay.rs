//! Where the recording indicator is placed: next to the pointer, kept
//! inside the monitor, or centred on it. The pointer arrives already in the
//! monitor's physical pixels.

use vstd::prelude::*;

verus! {

/// Whether `x` fits in an `i32`.
pub open spec fn in_i32(x: int) -> bool {
    i32::MIN <= x <= i32::MAX
}

/// `d / 2` rounded toward zero, as integer division does.
pub open spec fn half(d: int) -> int {
    if d >= 0 {
        d / 2
    } else {
        -((-d) / 2)
    }
}

/// The indicator's position, in `i32` arithmetic: `None` where a step of it
/// would overflow. Centred on the monitor when asked to or without a
/// pointer; otherwise 14 px right of and 20 px below the pointer, moved back
/// inside the right edge (8 px margin), flipped above the pointer at the
/// bottom edge, and kept 8 px inside the left and top edges.
pub open spec fn overlay_position(
    cursor: Option<(i32, i32)>,
    origin: (i32, i32),
    monitor: (i32, i32),
    window: (i32, i32),
    centered: bool,
) -> Option<(int, int)> {
    let (ox, oy) = (origin.0 as int, origin.1 as int);
    let (sw, sh) = (monitor.0 as int, monitor.1 as int);
    let (w, h) = (window.0 as int, window.1 as int);
    if centered || cursor is None {
        let dx = sw - w;
        let dy = sh - h;
        if in_i32(dx) && in_i32(dy) && in_i32(ox + half(dx)) && in_i32(oy + half(dy)) {
            Some((ox + half(dx), oy + half(dy)))
        } else {
            None
        }
    } else {
        let c = cursor->0;
        let (cx, cy) = (c.0 as int, c.1 as int);
        let wx0 = cx + 14;
        let wy0 = cy + 20;
        let right = ox + sw;
        let bottom = oy + sh;
        if !(in_i32(wx0) && in_i32(wy0) && in_i32(wx0 + w) && in_i32(right)) {
            None
        } else if wx0 + w > right && !(in_i32(right - w) && in_i32(right - w - 8)) {
            None
        } else {
            let wx1 = if wx0 + w > right {
                right - w - 8
            } else {
                wx0
            };
            if wx1 < ox && !in_i32(ox + 8) {
                None
            } else {
                let wx2 = if wx1 < ox {
                    ox + 8
                } else {
                    wx1
                };
                if !(in_i32(wy0 + h) && in_i32(bottom)) {
                    None
                } else if wy0 + h > bottom && !(in_i32(cy - h) && in_i32(cy - h - 12)) {
                    None
                } else {
                    let wy1 = if wy0 + h > bottom {
                        cy - h - 12
                    } else {
                        wy0
                    };
                    if wy1 < oy && !in_i32(oy + 8) {
                        None
                    } else {
                        let wy2 = if wy1 < oy {
                            oy + 8
                        } else {
                            wy1
                        };
                        Some((wx2, wy2))
                    }
                }
            }
        }
    }
}

fn fits(x: i64) -> (r: bool)
    ensures
        r == in_i32(x as int),
{
    -2147483648i64 <= x && x <= 2147483647i64
}

fn half_i64(d: i64) -> (r: i64)
    requires
        in_i32(d as int),
    ensures
        r == half(d as int),
{
    if d >= 0 {
        d / 2
    } else {
        -((-d) / 2)
    }
}

/// Places the indicator; `None` where the position overflows `i32`.
pub fn calculate_overlay_position(
    cursor: Option<(i32, i32)>,
    origin: (i32, i32),
    monitor: (i32, i32),
    window: (i32, i32),
    centered: bool,
) -> (r: Option<(i32, i32)>)
    ensures
        match r {
            Some(p) => overlay_position(cursor, origin, monitor, window, centered) == Some(
                (p.0 as int, p.1 as int),
            ),
            None => overlay_position(cursor, origin, monitor, window, centered) is None,
        },
{
    let ox = origin.0 as i64;
    let oy = origin.1 as i64;
    let sw = monitor.0 as i64;
    let sh = monitor.1 as i64;
    let w = window.0 as i64;
    let h = window.1 as i64;
    let pointer = match cursor {
        Some(c) => {
            if centered {
                None
            } else {
                Some(c)
            }
        },
        None => None,
    };
    match pointer {
        None => {
            let dx = sw - w;
            let dy = sh - h;
            if !(fits(dx) && fits(dy)) {
                return None;
            }
            let x = ox + half_i64(dx);
            let y = oy + half_i64(dy);
            if !(fits(x) && fits(y)) {
                return None;
            }
            Some((x as i32, y as i32))
        },
        Some((cx32, cy32)) => {
            let cx = cx32 as i64;
            let cy = cy32 as i64;
            let wx0 = cx + 14;
            let wy0 = cy + 20;
            let right = ox + sw;
            let bottom = oy + sh;
            if !(fits(wx0) && fits(wy0) && fits(wx0 + w) && fits(right)) {
                return None;
            }
            let mut wx = wx0;
            if wx0 + w > right {
                if !(fits(right - w) && fits(right - w - 8)) {
                    return None;
                }
                wx = right - w - 8;
            }
            if wx < ox {
                if !fits(ox + 8) {
                    return None;
                }
                wx = ox + 8;
            }
            if !(fits(wy0 + h) && fits(bottom)) {
                return None;
            }
            let mut wy = wy0;
            if wy0 + h > bottom {
                if !(fits(cy - h) && fits(cy - h - 12)) {
                    return None;
                }
                wy = cy - h - 12;
            }
            if wy < oy {
                if !fits(oy + 8) {
                    return None;
                }
                wy = oy + 8;
            }
            Some((wx as i32, wy as i32))
        },
    }
}

/// Next to the pointer: where the indicator, 14 px right of and 20 px below
/// the pointer, lies inside the monitor's rectangle (which starts at
/// `origin` and is `monitor` wide and high), it is placed exactly there;
/// where it would cross the monitor's right edge, it is pulled back to end
/// 8 px inside that edge; where it would cross the bottom edge, it is
/// flipped to end 12 px above the pointer.
pub proof fn lemma_overlay_follows_the_pointer(
    cx: i32,
    cy: i32,
    origin: (i32, i32),
    monitor: (i32, i32),
    window: (i32, i32),
)
    requires
        in_i32(cx + 14 + window.0),
        in_i32(cy + 20 + window.1),
        in_i32(origin.0 + monitor.0),
        in_i32(origin.1 + monitor.1),
        in_i32(origin.0 + monitor.0 - window.0 - 8),
        in_i32(cy - window.1 - 12),
        0 <= window.0,
        0 <= window.1,
    ensures
        origin.0 <= cx + 14 && cx + 14 + window.0 <= origin.0 + monitor.0 && origin.1 <= cy + 20
            && cy + 20 + window.1 <= origin.1 + monitor.1 ==> overlay_position(
            Some((cx, cy)),
            origin,
            monitor,
            window,
            false,
        ) == Some((cx + 14, cy + 20)),
        origin.0 + 8 <= origin.0 + monitor.0 - window.0 - 8 && cx + 14 + window.0 > origin.0
            + monitor.0 && origin.1 <= cy + 20 && cy + 20 + window.1 <= origin.1 + monitor.1
            ==> overlay_position(Some((cx, cy)), origin, monitor, window, false) == Some(
            (origin.0 + monitor.0 - window.0 - 8, cy + 20),
        ),
        origin.0 <= cx + 14 && cx + 14 + window.0 <= origin.0 + monitor.0 && origin.1 <= cy
            - window.1 - 12 && cy + 20 + window.1 > origin.1 + monitor.1 ==> overlay_position(
            Some((cx, cy)),
            origin,
            monitor,
            window,
            false,
        ) == Some((cx + 14, cy - window.1 - 12)),
{
}

} // verus!
