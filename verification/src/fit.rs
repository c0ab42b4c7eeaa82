use vstd::arithmetic::div_mod::lemma_div_pos_is_pos;
use vstd::prelude::*;

verus! {

/// Where an image is drawn inside the viewport: the top-left corner
/// `(x, y)` and the size `(w, h)`, all in pixels.
#[derive(Clone, Copy, Debug, PartialEq, Eq, Structural)]
pub struct Rect {
    pub x: u32,
    pub y: u32,
    pub w: u32,
    pub h: u32,
}

/// `n / d` rounded to the nearest integer, halves rounded up.
pub open spec fn round_div(n: int, d: int) -> int
    recommends
        0 <= n,
        0 < d,
{
    (n + d / 2) / d
}

/// The height of a source scaled uniformly so that its width becomes `dw`.
pub open spec fn scaled_height(sw: int, sh: int, dw: int) -> int {
    round_div(sh * dw, sw)
}

/// The width of a source scaled uniformly so that its height becomes `dh`.
pub open spec fn scaled_width(sw: int, sh: int, dh: int) -> int {
    round_div(sw * dh, sh)
}

/// The fit policy, as `(x, y, w, h)`: preserve the aspect ratio, scale
/// down (never up) along the axis on which the source exceeds the
/// viewport, and center along the other axis.
pub open spec fn fit_spec(sw: int, sh: int, dw: int, dh: int) -> (int, int, int, int) {
    if sw > sh {
        if sw > dw {
            let h = scaled_height(sw, sh, dw);
            (0, round_div(dh - h, 2), dw, h)
        } else {
            (round_div(dw - sw, 2), round_div(dh - sh, 2), sw, sh)
        }
    } else {
        if sh > dh {
            let w = scaled_width(sw, sh, dh);
            (round_div(dw - w, 2), 0, w, dh)
        } else {
            (round_div(dw - sw, 2), round_div(dh - sh, 2), sw, sh)
        }
    }
}

/// Whether the fitted size lies within the viewport on both axes. The
/// policy scales along one axis only, so a source can miss this: a
/// nearly square landscape image shrunk to a much squatter viewport
/// still overflows the viewport's height.
pub open spec fn fits(sw: int, sh: int, dw: int, dh: int) -> bool {
    fit_spec(sw, sh, dw, dh).2 <= dw && fit_spec(sw, sh, dw, dh).3 <= dh
}

/// `a` scaled by `b / d`, rounded to the nearest integer.
fn scale_round(a: u32, b: u32, d: u32) -> (r: u64)
    requires
        d > 0,
    ensures
        r == round_div(a as int * b as int, d as int),
{
    proof {
        assert((a as int) * (b as int) <= 0xffff_ffff * 0xffff_ffff) by (nonlinear_arith)
            requires
                a <= 0xffff_ffff,
                b <= 0xffff_ffff,
        ;
    }
    let n: u64 = (a as u64) * (b as u64);
    (n + (d as u64) / 2) / (d as u64)
}

/// The offset that centers a length `inner` inside a length `outer`.
fn center(outer: u32, inner: u32) -> (r: u32)
    requires
        inner <= outer,
    ensures
        r == round_div(outer - inner, 2),
{
    let gap: u32 = outer - inner;
    gap / 2 + gap % 2
}

/// Compute the destination rectangle for a source of `src_w` by `src_h`
/// pixels inside a viewport of `dst_w` by `dst_h` pixels. A source no
/// larger than the viewport is centered at its native size; a larger
/// one is scaled down to the viewport along its exceeding axis.
pub fn fit(src_w: u32, src_h: u32, dst_w: u32, dst_h: u32) -> (r: Rect)
    requires
        fits(src_w as int, src_h as int, dst_w as int, dst_h as int),
    ensures
        (r.x as int, r.y as int, r.w as int, r.h as int) == fit_spec(
            src_w as int,
            src_h as int,
            dst_w as int,
            dst_h as int,
        ),
{
    if src_w > src_h {
        if src_w > dst_w {
            let h64: u64 = scale_round(src_h, dst_w, src_w);
            let h: u32 = h64 as u32;
            Rect { x: 0, y: center(dst_h, h), w: dst_w, h }
        } else {
            Rect {
                x: center(dst_w, src_w),
                y: center(dst_h, src_h),
                w: src_w,
                h: src_h,
            }
        }
    } else {
        if src_h > dst_h {
            let w64: u64 = scale_round(src_w, dst_h, src_h);
            let w: u32 = w64 as u32;
            Rect { x: center(dst_w, w), y: 0, w, h: dst_h }
        } else {
            Rect {
                x: center(dst_w, src_w),
                y: center(dst_h, src_h),
                w: src_w,
                h: src_h,
            }
        }
    }
}

/// Compute the destination rectangle where the policy covers the given
/// sizes, and report the sizes it does not cover instead of failing.
pub fn fit_checked(src_w: u32, src_h: u32, dst_w: u32, dst_h: u32) -> (r: Option<Rect>)
    ensures
        r is Some <==> fits(src_w as int, src_h as int, dst_w as int, dst_h as int),
        (r matches Some(rect) ==> (rect.x as int, rect.y as int, rect.w as int, rect.h as int)
            == fit_spec(src_w as int, src_h as int, dst_w as int, dst_h as int)),
{
    if src_w > src_h {
        if src_w > dst_w {
            let h64: u64 = scale_round(src_h, dst_w, src_w);
            if h64 <= dst_h as u64 {
                Some(fit(src_w, src_h, dst_w, dst_h))
            } else {
                None
            }
        } else {
            if src_h <= dst_h {
                Some(fit(src_w, src_h, dst_w, dst_h))
            } else {
                None
            }
        }
    } else {
        if src_h > dst_h {
            let w64: u64 = scale_round(src_w, dst_h, src_h);
            if w64 <= dst_w as u64 {
                Some(fit(src_w, src_h, dst_w, dst_h))
            } else {
                None
            }
        } else {
            if src_w <= dst_w {
                Some(fit(src_w, src_h, dst_w, dst_h))
            } else {
                None
            }
        }
    }
}

/// The centering offset lies inside the outer length: for
/// `0 <= inner <= outer`, the offset is non-negative and offset plus
/// `inner` stays within `outer`.
proof fn lemma_center_bounds(outer: int, inner: int)
    requires
        0 <= inner <= outer,
    ensures
        0 <= round_div(outer - inner, 2),
        round_div(outer - inner, 2) + inner <= outer,
{
    let k = outer - inner;
    if k >= 1 {
        assert((k + 1) / 2 <= k) by (nonlinear_arith)
            requires
                k >= 1,
        ;
    }
}

/// Law: on positive sizes whose fitted size the policy covers, the
/// fitted rectangle lies fully inside the viewport.
pub proof fn lemma_fit_contained(sw: int, sh: int, dw: int, dh: int)
    requires
        sw > 0,
        sh > 0,
        dw > 0,
        dh > 0,
        fits(sw, sh, dw, dh),
    ensures
        ({
            let (x, y, w, h) = fit_spec(sw, sh, dw, dh);
            0 <= x && 0 <= y && 0 <= w && 0 <= h && x + w <= dw && y + h <= dh
        }),
{
    if sw > sh && sw > dw {
        let h = scaled_height(sw, sh, dw);
        assert(sh * dw >= 0) by (nonlinear_arith)
            requires
                sh >= 0,
                dw >= 0,
        ;
        lemma_div_pos_is_pos(sh * dw + sw / 2, sw);
        lemma_center_bounds(dh, h);
    } else if sw <= sh && sh > dh {
        let w = scaled_width(sw, sh, dh);
        assert(sw * dh >= 0) by (nonlinear_arith)
            requires
                sw >= 0,
                dh >= 0,
        ;
        lemma_div_pos_is_pos(sw * dh + sh / 2, sh);
        lemma_center_bounds(dw, w);
    } else {
        lemma_center_bounds(dw, sw);
        lemma_center_bounds(dh, sh);
    }
}

/// Law: a source no larger than the viewport on either axis is never
/// upscaled — it keeps its native size and is centered on both axes.
pub proof fn lemma_fit_no_upscale(sw: int, sh: int, dw: int, dh: int)
    requires
        0 <= sw <= dw,
        0 <= sh <= dh,
    ensures
        fits(sw, sh, dw, dh),
        fit_spec(sw, sh, dw, dh).2 == sw,
        fit_spec(sw, sh, dw, dh).3 == sh,
        fit_spec(sw, sh, dw, dh).0 == round_div(dw - sw, 2),
        fit_spec(sw, sh, dw, dh).1 == round_div(dh - sh, 2),
{
}

/// Law: a portrait (or square) source taller than the viewport is
/// scaled to the full viewport height, its width scaled by the same
/// ratio so the aspect ratio is preserved, flush top and horizontally
/// centered.
pub proof fn lemma_fit_portrait_downscale(sw: int, sh: int, dw: int, dh: int)
    requires
        sw <= sh,
        sh > dh,
    ensures
        fit_spec(sw, sh, dw, dh).3 == dh,
        fit_spec(sw, sh, dw, dh).2 == round_div(sw * dh, sh),
        fit_spec(sw, sh, dw, dh).1 == 0,
        fit_spec(sw, sh, dw, dh).0 == round_div(dw - round_div(sw * dh, sh), 2),
{
}

/// Law: a landscape source wider than the viewport is scaled to the
/// full viewport width, its height scaled by the same ratio, flush
/// left and vertically centered.
pub proof fn lemma_fit_landscape_downscale(sw: int, sh: int, dw: int, dh: int)
    requires
        sw > sh,
        sw > dw,
    ensures
        fit_spec(sw, sh, dw, dh).2 == dw,
        fit_spec(sw, sh, dw, dh).3 == round_div(sh * dw, sw),
        fit_spec(sw, sh, dw, dh).0 == 0,
        fit_spec(sw, sh, dw, dh).1 == round_div(dh - round_div(sh * dw, sw), 2),
{
}

} // verus!
