use vstd::prelude::*;

verus! {

/// The widest of `widths`, or 0.
pub open spec fn widest(widths: Seq<i32>) -> int
    decreases widths.len(),
{
    if widths.len() == 0 {
        0
    } else {
        let w = widest(widths.drop_last());
        if widths.last() > w {
            widths.last() as int
        } else {
            w
        }
    }
}

/// `x / 2`, rounded toward zero as `i32` division rounds.
pub open spec fn half_toward_zero(x: int) -> int {
    if x >= 0 {
        x / 2
    } else {
        -((-x) / 2)
    }
}

/// `x`, held to what an `i32` can carry.
pub open spec fn clamp_i32(x: int) -> int {
    if x > i32::MAX {
        i32::MAX as int
    } else if x < i32::MIN {
        i32::MIN as int
    } else {
        x
    }
}

/// The height of `lines` lines of text of size `font_size`, each followed by
/// half a line of spacing, with 6 pixels of padding above and below; held to
/// what an `i32` can carry.
pub open spec fn lyrics_height(lines: int, font_size: int) -> int {
    clamp_i32(12 + lines * (font_size + half_toward_zero(font_size)))
}

/// The size of the box that holds lyrics whose lines measure `widths` pixels
/// across, in text of size `font_size`.
pub fn get_dimensions(widths: &Vec<i32>, font_size: i32) -> (r: (i32, i32))
    ensures
        r.0 == widest(widths@),
        r.1 == lyrics_height(widths@.len() as int, font_size as int),
{
    let half: i64 = if font_size >= 0 {
        (font_size / 2) as i64
    } else {
        -(((-(font_size as i64)) / 2))
    };
    let step: i64 = font_size as i64 + half;
    let mut w: i32 = 0;
    let mut h: i64 = 12;
    let mut i: usize = 0;
    while i < widths.len()
        invariant
            0 <= i <= widths@.len(),
            step == font_size + half_toward_zero(font_size as int),
            -0x1_0000_0000 <= step <= 0x1_0000_0000,
            w == widest(widths@.subrange(0, i as int)),
            h == lyrics_height(i as int, font_size as int),
        decreases widths@.len() - i,
    {
        proof {
            let done = widths@.subrange(0, i as int);
            let next = widths@.subrange(0, i + 1);
            assert(next.drop_last() =~= done);
            assert((i + 1) * step == i * step + step) by (nonlinear_arith);
            if step >= 0 {
                assert(i * step >= 0) by (nonlinear_arith)
                    requires
                        i >= 0,
                        step >= 0,
                ;
            } else {
                assert(i * step <= 0) by (nonlinear_arith)
                    requires
                        i >= 0,
                        step < 0,
                ;
            }
        }
        if widths[i] > w {
            w = widths[i];
        }
        let t: i64 = h + step;
        h = if t > i32::MAX as i64 {
            i32::MAX as i64
        } else if t < i32::MIN as i64 {
            i32::MIN as i64
        } else {
            t
        };
        i = i + 1;
    }
    assert(widths@.subrange(0, widths@.len() as int) =~= widths@);
    (w, h as i32)
}

} // verus!
