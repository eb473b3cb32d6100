use vstd::prelude::*;

verus! {

/// `p / q` rounded to the nearest integer, halves rounded up.
pub open spec fn round_div(p: int, q: int) -> int {
    (2 * p + q) / (2 * q)
}

/// The scale that fits a `sw` x `sh` picture into `tw` x `th` terminal cells,
/// as a fraction: the smaller of `tw / sw` and `2 * th / sh`, since each cell
/// shows two pixels stacked vertically.
pub open spec fn fit_scale(sw: int, sh: int, tw: int, th: int) -> (int, int) {
    if tw * sh <= 2 * th * sw {
        (tw, sw)
    } else {
        (2 * th, sh)
    }
}

/// One side of the fitted picture: the source side times the scale, rounded,
/// and never less than one pixel.
pub open spec fn fitted_side(side: int, scale: (int, int)) -> int {
    let r = round_div(side * scale.0, scale.1);
    if r < 1 { 1 } else { r }
}

/// The size at which a `size` picture is drawn on a terminal of `term_size` cells.
pub open spec fn fitted_size(size: (usize, usize), term_size: (u16, u16)) -> (int, int) {
    let scale = fit_scale(size.0 as int, size.1 as int, term_size.0 as int, term_size.1 as int);
    (fitted_side(size.0 as int, scale), fitted_side(size.1 as int, scale))
}

fn scaled_side(side: usize, num: u128, den: u128) -> (r: usize)
    requires
        den > 0,
        den <= 0xffff_ffff_ffff_ffffu128,
        num <= 2 * 0xffff,
        side as int * num <= 2 * 0xffff * den,
    ensures
        r == fitted_side(side as int, (num as int, den as int)),
        r <= 2 * 0xffff + 1,
{
    assert((side as u128) * num <= 0xffff_ffff_ffff_ffffu128 * 0x1_fffe) by (nonlinear_arith)
        requires
            side as u128 <= 0xffff_ffff_ffff_ffffu128,
            num <= 0x1_fffe,
    ;
    let p: u128 = (side as u128) * num;
    assert(p <= 2 * 0xffff * den) by (nonlinear_arith)
        requires
            p == side as int * num,
            side as int * num <= 2 * 0xffff * den,
    ;
    let rounded: u128 = (2 * p + den) / (2 * den);
    assert(rounded <= 2 * 0xffff + 1) by (nonlinear_arith)
        requires
            rounded == (2 * p + den) / (2 * den),
            p <= 2 * 0xffff * den,
            den > 0,
    ;
    if rounded < 1 {
        1
    } else {
        rounded as usize
    }
}

/// The size at which a picture of `size` pixels is drawn on a terminal of
/// `term_size` cells: scaled by the largest factor that fits both axes, each
/// side rounded to the nearest pixel and at least one pixel.
pub fn get_new_size(size: (usize, usize), term_size: (u16, u16)) -> (r: (usize, usize))
    requires
        size.0 > 0,
        size.1 > 0,
    ensures
        r.0 as int == fitted_size(size, term_size).0,
        r.1 as int == fitted_size(size, term_size).1,
        r.0 >= 1,
        r.1 >= 1,
{
    let sw: u128 = size.0 as u128;
    let sh: u128 = size.1 as u128;
    let tw: u128 = term_size.0 as u128;
    let th2: u128 = 2 * (term_size.1 as u128);
    assert(sw * sh <= 0xffff_ffff_ffff_ffff * 0xffff_ffff_ffff_ffffu128) by (nonlinear_arith)
        requires
            sw <= 0xffff_ffff_ffff_ffffu128,
            sh <= 0xffff_ffff_ffff_ffffu128,
    ;
    assert(tw * sh <= 0xffff * 0xffff_ffff_ffff_ffffu128) by (nonlinear_arith)
        requires
            tw <= 0xffff,
            sh <= 0xffff_ffff_ffff_ffffu128,
    ;
    assert(th2 * sw <= 2 * 0xffff * 0xffff_ffff_ffff_ffffu128) by (nonlinear_arith)
        requires
            th2 <= 2 * 0xffff,
            sw <= 0xffff_ffff_ffff_ffffu128,
    ;
    let (num, den): (u128, u128) = if tw * sh <= th2 * sw {
        (tw, sw)
    } else {
        (th2, sh)
    };
    assert(sw * num <= 2 * 0xffff * den && sh * num <= 2 * 0xffff * den) by (nonlinear_arith)
        requires
            (num == tw && den == sw && tw * sh <= th2 * sw) || (num == th2 && den == sh && tw
                * sh > th2 * sw),
            tw <= 0xffff,
            th2 <= 2 * 0xffff,
            sw > 0,
            sh > 0,
    ;
    (scaled_side(size.0, num, den), scaled_side(size.1, num, den))
}

} // verus!
