//! The tray: its icon, drawn as a white microphone on a transparent
//! background, and what its menu items do.

use vstd::prelude::*;

verus! {

/// Width and height of the tray icon in pixels.
pub const ICON_SIZE: u32 = 32;

/// The microphone's body: an ellipse with half-axes 8 and 12 centred at
/// (16, 12), that is, ((x-16)/8)^2 + ((y-12)/12)^2 <= 1.
pub open spec fn in_mic_body(x: int, y: int) -> bool {
    9 * (x - 16) * (x - 16) + 4 * (y - 12) * (y - 12) <= 576
}

/// The stand: |x - 16| < 3 for 24 <= y <= 30.
pub open spec fn in_stand(x: int, y: int) -> bool {
    -3 < x - 16 < 3 && 24 <= y <= 30
}

/// The base: |x - 16| < 8 and |y - 29| < 2.
pub open spec fn in_base(x: int, y: int) -> bool {
    -8 < x - 16 < 8 && -2 < y - 29 < 2
}

/// Whether pixel (x, y) is part of the microphone.
pub open spec fn icon_pixel_on(x: int, y: int) -> bool {
    in_mic_body(x, y) || in_stand(x, y) || in_base(x, y)
}

/// Whether pixel (x, y) is part of the microphone.
pub fn pixel_on(x: u32, y: u32) -> (r: bool)
    requires
        x < ICON_SIZE,
        y < ICON_SIZE,
    ensures
        r == icon_pixel_on(x as int, y as int),
{
    let dx: i32 = x as i32 - 16;
    let dy: i32 = y as i32 - 12;
    let yi: i32 = y as i32;
    assert(0 <= dx * dx <= 256) by (nonlinear_arith)
        requires
            -16 <= dx <= 15,
    ;
    assert(0 <= dy * dy <= 361) by (nonlinear_arith)
        requires
            -12 <= dy <= 19,
    ;
    let sx: i32 = dx * dx;
    let sy: i32 = dy * dy;
    assert(9 * sx + 4 * sy == 9 * (x - 16) * (x - 16) + 4 * (y - 12) * (y - 12)) by (nonlinear_arith)
        requires
            sx == dx * dx,
            sy == dy * dy,
            dx == x - 16,
            dy == y - 12,
    ;
    let body = 9 * sx + 4 * sy <= 576;
    let stand = -3 < dx && dx < 3 && 24 <= yi && yi <= 30;
    let base = -8 < dx && dx < 8 && -2 < yi - 29 && yi - 29 < 2;
    body || stand || base
}

/// The icon's RGBA bytes, row by row: microphone pixels opaque white, the
/// rest fully transparent.
pub open spec fn icon_byte(i: int) -> u8 {
    let p = i / 4;
    if icon_pixel_on(p % 32, p / 32) {
        255
    } else {
        0
    }
}

/// Draws the 32x32 RGBA tray icon.
pub fn icon_rgba() -> (rgba: Vec<u8>)
    ensures
        rgba@.len() == 4 * ICON_SIZE * ICON_SIZE,
        forall|i: int| 0 <= i < rgba@.len() ==> rgba@[i] == icon_byte(i),
{
    let mut rgba: Vec<u8> = Vec::new();
    let mut y: u32 = 0;
    while y < ICON_SIZE
        invariant
            y <= ICON_SIZE,
            rgba@.len() == 128 * y,
            forall|i: int| 0 <= i < rgba@.len() ==> rgba@[i] == icon_byte(i),
        decreases ICON_SIZE - y,
    {
        let mut x: u32 = 0;
        while x < ICON_SIZE
            invariant
                y < ICON_SIZE,
                x <= ICON_SIZE,
                rgba@.len() == 128 * y + 4 * x,
                forall|i: int| 0 <= i < rgba@.len() ==> rgba@[i] == icon_byte(i),
            decreases ICON_SIZE - x,
        {
            let v: u8 = if pixel_on(x, y) {
                255
            } else {
                0
            };
            let ghost start = rgba@.len() as int;
            rgba.push(v);
            rgba.push(v);
            rgba.push(v);
            rgba.push(v);
            proof {
                assert forall|i: int| start <= i < start + 4 implies rgba@[i] == icon_byte(i) by {
                    assert(i / 4 == 32 * y + x) by (nonlinear_arith)
                        requires
                            start == 128 * y + 4 * x,
                            start <= i < start + 4,
                    ;
                    assert((32 * y + x) % 32 == x && (32 * y + x) / 32 == y) by (nonlinear_arith)
                        requires
                            x < 32,
                    ;
                }
            }
            x = x + 1;
        }
        y = y + 1;
    }
    rgba
}

/// A tray menu item.
#[derive(Debug, Clone, Copy, PartialEq, Eq, Structural)]
pub enum TrayItem {
    Settings,
    Quit,
}

} // verus!
