use vstd::prelude::*;
use crate::device::InputError;

verus! {

/// The largest screenshot width that the model takes.
pub const MODEL_MAX_WIDTH: u32 = 1024;

/// The largest screenshot height that the model takes.
pub const MODEL_MAX_HEIGHT: u32 = 768;

/// `n / d` rounded to the nearest integer, halves up.
pub open spec fn round_div(n: int, d: int) -> int {
    n / d + if 2 * (n % d) >= d {
        1int
    } else {
        0int
    }
}

/// A shrunk side of length `v`, kept at one pixel at least where the
/// original side `side` was not empty.
pub open spec fn at_least_one(v: int, side: u32) -> int {
    if side > 0 && v < 1 {
        1
    } else {
        v
    }
}

/// The size of a `w` by `h` frame shrunk to fit `mw` by `mh`, aspect ratio
/// kept and never enlarged: both sides scale by `min(mw / w, mh / h, 1)`,
/// rounded; a side that was not empty keeps at least one pixel.
pub open spec fn shrunk(w: u32, h: u32, mw: u32, mh: u32) -> (int, int) {
    if w <= mw && h <= mh {
        (w as int, h as int)
    } else if w > 0 && mw * h <= mh * w {
        (at_least_one(mw as int, w), at_least_one(round_div(h * mw, w as int), h))
    } else {
        (at_least_one(round_div(w * mh, h as int), w), at_least_one(mh as int, h))
    }
}

proof fn lemma_round_div_le(n: int, d: int, bound: int)
    requires
        0 <= n,
        0 < d,
        n <= bound * d,
    ensures
        0 <= round_div(n, d) <= bound,
{
    assert(n / d <= bound) by (nonlinear_arith)
        requires
            0 <= n,
            0 < d,
            n <= bound * d,
    ;
    assert(n / d >= 0) by (nonlinear_arith)
        requires
            0 <= n,
            0 < d,
    ;
    if n / d == bound {
        assert(n % d == 0) by (nonlinear_arith)
            requires
                0 <= n,
                0 < d,
                n <= bound * d,
                n / d == bound,
        ;
    }
}

proof fn lemma_mul_fits(a: u32, b: u32)
    ensures
        0 <= (a as int) * (b as int) <= (u32::MAX as int) * (u32::MAX as int),
{
    assert(0 <= (a as int) * (b as int) <= (u32::MAX as int) * (u32::MAX as int)) by (nonlinear_arith)
        requires
            0 <= a <= u32::MAX,
            0 <= b <= u32::MAX,
    ;
}

fn round_div_u64(n: u64, d: u64) -> (r: u64)
    requires
        d > 0,
        round_div(n as int, d as int) <= u64::MAX,
    ensures
        r as int == round_div(n as int, d as int),
{
    let q = n / d;
    let m = n % d;
    if m >= d - m {
        q + 1
    } else {
        q
    }
}

fn one_if_empty(v: u32, side: u32) -> (r: u32)
    ensures
        r as int == at_least_one(v as int, side),
{
    if side > 0 && v < 1 {
        1
    } else {
        v
    }
}

/// The size that a `width` by `height` screenshot is shrunk to before it is
/// shown to a model that takes at most `max_width` by `max_height`.
pub fn shrink_size(width: u32, height: u32, max_width: u32, max_height: u32) -> (r: (u32, u32))
    ensures
        r.0 as int == shrunk(width, height, max_width, max_height).0,
        r.1 as int == shrunk(width, height, max_width, max_height).1,
        r.0 <= width && r.1 <= height,
        width > 0 && height > 0 ==> r.0 > 0 && r.1 > 0,
{
    proof {
        lemma_mul_fits(max_width, height);
        lemma_mul_fits(max_height, width);
        lemma_mul_fits(height, max_width);
        lemma_mul_fits(width, max_height);
    }
    if width <= max_width && height <= max_height {
        return (width, height);
    }
    let mw_h = (max_width as u64) * (height as u64);
    let mh_w = (max_height as u64) * (width as u64);
    if width > 0 && mw_h <= mh_w {
        let n = (height as u64) * (max_width as u64);
        proof {
            assert(width > max_width) by (nonlinear_arith)
                requires
                    !(width <= max_width && height <= max_height),
                    max_width * height <= max_height * width,
                    width > 0,
            ;
            assert(n <= height * width) by (nonlinear_arith)
                requires
                    n == height * max_width,
                    max_width < width,
                    height >= 0,
            ;
            lemma_round_div_le(n as int, width as int, height as int);
        }
        let h = round_div_u64(n, width as u64) as u32;
        (one_if_empty(max_width, width), one_if_empty(h, height))
    } else {
        let n = (width as u64) * (max_height as u64);
        proof {
            assert(height > max_height) by (nonlinear_arith)
                requires
                    !(width <= max_width && height <= max_height),
                    !(width > 0 && max_width * height <= max_height * width),
                    width >= 0,
                    max_width >= 0,
                    max_height >= 0,
            ;
            assert(n <= width * height) by (nonlinear_arith)
                requires
                    n == width * max_height,
                    max_height < height,
                    width >= 0,
            ;
            lemma_round_div_le(n as int, height as int, width as int);
        }
        let w = round_div_u64(n, height as u64) as u32;
        (one_if_empty(w, width), one_if_empty(max_height, height))
    }
}

/// Where the width, not the height, limits the shrink, the shrunk width is
/// the model's maximum when the frame is wider than that, and the frame's
/// own width otherwise.
pub proof fn lemma_shrunk_width(w: u32, h: u32, mw: u32, mh: u32)
    requires
        mw > 0,
        h * mw <= w * mh,
    ensures
        shrunk(w, h, mw, mh).0 == if w > mw {
            mw as int
        } else {
            w as int
        },
{
    if w <= mw {
        assert(h <= mh) by (nonlinear_arith)
            requires
                h * mw <= w * mh,
                w <= mw,
                mw > 0,
                w >= 0,
                h >= 0,
                mh >= 0,
        ;
    } else {
        assert(mw * h <= mh * w) by (nonlinear_arith)
            requires
                h * mw <= w * mh,
        ;
    }
}

/// A frame that is not empty never shrinks below one pixel on either side,
/// nor grows on either side, so the scale it gives is in (0, 1].
pub proof fn lemma_shrunk_in_range(w: u32, h: u32, mw: u32, mh: u32)
    requires
        w > 0,
        h > 0,
    ensures
        0 < shrunk(w, h, mw, mh).0 <= w,
        0 < shrunk(w, h, mw, mh).1 <= h,
{
    if !(w <= mw && h <= mh) {
        if mw * h <= mh * w {
            assert(h * mw <= h * w) by (nonlinear_arith)
                requires
                    !(w <= mw && h <= mh),
                    mw * h <= mh * w,
                    h > 0,
                    w > 0,
            ;
            assert(w > mw) by (nonlinear_arith)
                requires
                    !(w <= mw && h <= mh),
                    mw * h <= mh * w,
                    w > 0,
            ;
            lemma_round_div_le(h * mw, w as int, h as int);
        } else {
            assert(h > mh) by (nonlinear_arith)
                requires
                    !(w <= mw && h <= mh),
                    !(mw * h <= mh * w),
                    w >= 0,
                    mw >= 0,
                    mh >= 0,
            ;
            assert(w * mh <= w * h) by (nonlinear_arith)
                requires
                    !(w <= mw && h <= mh),
                    !(mw * h <= mh * w),
                    h > 0,
                    w > 0,
            ;
            lemma_round_div_le(w * mh, h as int, w as int);
        }
    }
}

/// The ratio of a screenshot's width as the model sees it to the width of
/// the environment: `scaled / native`, in (0, 1].
#[derive(Debug, Clone, Copy, PartialEq, Eq, Structural)]
pub struct Scale {
    pub scaled: u32,
    pub native: u32,
}

impl Scale {
    pub open spec fn wf(&self) -> bool {
        0 < self.scaled <= self.native
    }

    /// The scale between a screenshot `scaled_width` wide and an environment
    /// `native_width` wide. Never above one: a wider screenshot counts as
    /// the native width. None where either width is zero.
    pub fn from_widths(scaled_width: u32, native_width: u32) -> (r: Option<Scale>)
        ensures
            r is Some <==> scaled_width > 0 && native_width > 0,
            r matches Some(s) ==> s.wf() && s.native == native_width && s.scaled == if scaled_width
                <= native_width {
                scaled_width
            } else {
                native_width
            },
    {
        if scaled_width == 0 || native_width == 0 {
            None
        } else if scaled_width <= native_width {
            Some(Scale { scaled: scaled_width, native: native_width })
        } else {
            Some(Scale { scaled: native_width, native: native_width })
        }
    }
}

/// A model coordinate divided by the scale and rounded: `c * native / scaled`.
pub open spec fn to_native(c: u32, s: Scale) -> int {
    round_div(c * s.native, s.scaled as int)
}

/// Maps a coordinate in the model's screenshot to the environment's pixels,
/// saturating at `u32::MAX`.
pub fn native_coordinate(c: u32, s: &Scale) -> (r: u32)
    requires
        s.wf(),
    ensures
        r as int == if to_native(c, *s) > u32::MAX {
            u32::MAX as int
        } else {
            to_native(c, *s)
        },
{
    proof {
        lemma_mul_fits(c, s.native);
    }
    let n = (c as u64) * (s.native as u64);
    proof {
        assert(n <= n * s.scaled) by (nonlinear_arith)
            requires
                s.scaled >= 1,
                n >= 0,
        ;
        lemma_round_div_le(n as int, s.scaled as int, n as int);
    }
    let v = round_div_u64(n, s.scaled as u64);
    if v > u32::MAX as u64 {
        u32::MAX
    } else {
        v as u32
    }
}

/// A window's place on the screen.
#[derive(Debug, Clone, Copy, PartialEq, Eq, Structural)]
pub struct WindowGeometry {
    pub x: i32,
    pub y: i32,
    pub width: u32,
    pub height: u32,
}

/// Maps a window-relative position to a screen position. A position outside
/// the window is refused, as is one that would fall off the screen's
/// coordinate range.
pub fn window_point(geom: WindowGeometry, x: u32, y: u32) -> (r: Result<(u32, u32), InputError>)
    ensures
        r is Ok <==> x < geom.width && y < geom.height && 0 <= geom.x + x <= u32::MAX && 0
            <= geom.y + y <= u32::MAX,
        r matches Ok(p) ==> p.0 == geom.x + x && p.1 == geom.y + y,
        r matches Err(e) ==> e == (InputError::CoordinateOutOfBounds {
            x,
            y,
            width: geom.width,
            height: geom.height,
        }),
{
    let out = InputError::CoordinateOutOfBounds { x, y, width: geom.width, height: geom.height };
    if x >= geom.width || y >= geom.height {
        return Err(out);
    }
    let px = geom.x as i64 + x as i64;
    let py = geom.y as i64 + y as i64;
    if px < 0 || py < 0 || px > u32::MAX as i64 || py > u32::MAX as i64 {
        return Err(out);
    }
    Ok((px as u32, py as u32))
}

/// The data words of the window-manager request that adds (`on_top`) or
/// removes the "above" state of a window: action, state atom, no second
/// atom, normal source.
pub fn above_state_request(on_top: bool, above_atom: u32) -> (r: [u32; 5])
    ensures
        r@ == seq![if on_top {
            1u32
        } else {
            0u32
        }, above_atom, 0u32, 1u32, 0u32],
{
    let action: u32 = if on_top {
        1
    } else {
        0
    };
    let r = [action, above_atom, 0, 1, 0];
    proof {
        assert(r@ =~= seq![action, above_atom, 0u32, 1u32, 0u32]);
    }
    r
}

} // verus!
