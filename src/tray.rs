use vstd::prelude::*;
use crate::state::TrayState;

verus! {

/// Side of the square tray icon, in pixels.
pub const ICON_SIDE: u32 = 18;

/// Four times the squared distance from the centre of the icon (8.5, 8.5) to
/// the centre of pixel (x, y).
pub open spec fn dist4(x: int, y: int) -> int {
    (2 * x - 17) * (2 * x - 17) + (2 * y - 17) * (2 * y - 17)
}

/// The opacity of pixel (x, y) of the icon for `state`, drawn about a circle
/// of radius 6.5: an outline 0.9 wide for idle (distances 5.6 to 7.4), a ring
/// 2.1 wide over a faint disc for listening, a solid disc for dictating.
pub open spec fn icon_alpha(state: TrayState, x: int, y: int) -> u8 {
    let q = dist4(x, y);
    match state {
        TrayState::Idle => if 126 <= q && q <= 219 {
            220
        } else {
            0
        },
        TrayState::Listening => if q <= 169 && q >= 78 {
            180
        } else if q < 78 {
            45
        } else {
            0
        },
        TrayState::Dictating => if q <= 169 {
            255
        } else {
            0
        },
    }
}

/// Pixel `i` of `rgba` is white with the opacity that `icon_alpha` gives.
pub open spec fn pixel_ok(rgba: Seq<u8>, state: TrayState, i: int) -> bool {
    &&& rgba[4 * i] == 255
    &&& rgba[4 * i + 1] == 255
    &&& rgba[4 * i + 2] == 255
    &&& rgba[4 * i + 3] == icon_alpha(state, i % 18, i / 18)
}

/// The tray icon for a state, as 18 x 18 white RGBA pixels, row by row, with
/// the opacity that `icon_alpha` gives; and its width and height.
pub fn tray_icon_rgba(state: TrayState) -> (r: (Vec<u8>, u32, u32))
    ensures
        r.1 == 18,
        r.2 == 18,
        r.0@.len() == 18 * 18 * 4,
        forall|i: int| 0 <= i < 18 * 18 ==> #[trigger] pixel_ok(r.0@, state, i),
{
    let mut rgba: Vec<u8> = Vec::with_capacity(18 * 18 * 4);
    let mut p: u32 = 0;
    while p < ICON_SIDE * ICON_SIDE
        invariant
            p <= 18 * 18,
            rgba@.len() == 4 * p,
            forall|k: int|
                0 <= k < p ==> {
                    &&& #[trigger] rgba@[4 * k] == 255
                    &&& rgba@[4 * k + 1] == 255
                    &&& rgba@[4 * k + 2] == 255
                    &&& rgba@[4 * k + 3] == icon_alpha(state, k % 18, k / 18)
                },
        decreases 18 * 18 - p,
    {
        let x = (p % ICON_SIDE) as i32;
        let y = (p / ICON_SIDE) as i32;
        assert(0 <= y < 18) by (nonlinear_arith)
            requires
                y == p / 18,
                p < 324,
        ;
        let ex: i32 = 2 * x - 17;
        let ey: i32 = 2 * y - 17;
        assert(0 <= ex * ex <= 289 && 0 <= ey * ey <= 289) by (nonlinear_arith)
            requires
                -17 <= ex <= 17,
                -17 <= ey <= 17,
        ;
        let q = ex * ex + ey * ey;
        assert(q == dist4(p as int % 18, p as int / 18));
        let alpha: u8 = match state {
            TrayState::Idle => if 126 <= q && q <= 219 {
                220
            } else {
                0
            },
            TrayState::Listening => if q <= 169 && q >= 78 {
                180
            } else if q < 78 {
                45
            } else {
                0
            },
            TrayState::Dictating => if q <= 169 {
                255
            } else {
                0
            },
        };
        let ghost before = rgba@;
        rgba.push(255);
        rgba.push(255);
        rgba.push(255);
        rgba.push(alpha);
        assert forall|k: int| 0 <= k < p + 1 implies {
            &&& #[trigger] rgba@[4 * k] == 255
            &&& rgba@[4 * k + 1] == 255
            &&& rgba@[4 * k + 2] == 255
            &&& rgba@[4 * k + 3] == icon_alpha(state, k % 18, k / 18)
        } by {
            if k < p {
                assert(rgba@[4 * k] == before[4 * k]);
                assert(rgba@[4 * k + 1] == before[4 * k + 1]);
                assert(rgba@[4 * k + 2] == before[4 * k + 2]);
                assert(rgba@[4 * k + 3] == before[4 * k + 3]);
            }
        }
        p += 1;
    }
    assert(p == 18 * 18);
    let r = (rgba, ICON_SIDE, ICON_SIDE);
    assert forall|k: int| 0 <= k < 18 * 18 implies #[trigger] pixel_ok(r.0@, state, k) by {
        assert(0 <= k < p);
        assert(rgba@[4 * k] == 255);
    }
    r
}

} // verus!
