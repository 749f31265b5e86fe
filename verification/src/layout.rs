//! Rectangles in terminal cell coordinates and the partition utilities the
//! renderer builds its bands from: a three-way vertical split with fixed
//! header and footer heights, a percentage-based horizontal split, and the
//! interior of a bordered box.

use vstd::prelude::*;
use vstd::arithmetic::div_mod::{lemma_div_is_ordered, lemma_div_multiples_vanish};
use vstd::arithmetic::mul::lemma_mul_inequality;

verus! {

/// A rectangle in terminal cell coordinates: origin plus size.
#[derive(Clone, Copy, Debug, PartialEq, Eq, Structural)]
pub struct Rect {
    pub x: u16,
    pub y: u16,
    pub width: u16,
    pub height: u16,
}

impl Rect {
    /// The rectangle lies within the addressable cell grid: its far edges
    /// are still representable coordinates.
    pub open spec fn wf(&self) -> bool {
        &&& self.x + self.width <= u16::MAX
        &&& self.y + self.height <= u16::MAX
    }
}

/// The three vertical bands of an area: a header of at most `top` rows, a
/// footer of at most `bottom` rows, and the body in between. The header
/// claims its rows first, then the footer; the body takes what is left, so
/// the three heights always sum to the area height.
pub open spec fn spec_vsplit_bands(area: Rect, top: u16, bottom: u16) -> (Rect, Rect, Rect) {
    let top_h: u16 = if top <= area.height {
        top
    } else {
        area.height
    };
    let rest: u16 = (area.height - top_h) as u16;
    let bot_h: u16 = if bottom <= rest {
        bottom
    } else {
        rest
    };
    let body_h: u16 = (rest - bot_h) as u16;
    (
        Rect { x: area.x, y: area.y, width: area.width, height: top_h },
        Rect { x: area.x, y: (area.y + top_h) as u16, width: area.width, height: body_h },
        Rect {
            x: area.x,
            y: (area.y + top_h + body_h) as u16,
            width: area.width,
            height: bot_h,
        },
    )
}

/// Split an area into header, body and footer bands. The bands are
/// contiguous from the top, never overlap, and their heights partition the
/// area height exactly; when the area is shorter than `top + bottom` the
/// body and then the footer degenerate to zero rows.
pub fn vsplit_bands(area: Rect, top: u16, bottom: u16) -> (r: (Rect, Rect, Rect))
    requires
        area.wf(),
    ensures
        r == spec_vsplit_bands(area, top, bottom),
        r.0.height + r.1.height + r.2.height == area.height,
        r.0.wf() && r.1.wf() && r.2.wf(),
{
    let top_h: u16 = if top <= area.height {
        top
    } else {
        area.height
    };
    let rest: u16 = area.height - top_h;
    let bot_h: u16 = if bottom <= rest {
        bottom
    } else {
        rest
    };
    let body_h: u16 = rest - bot_h;
    let header = Rect { x: area.x, y: area.y, width: area.width, height: top_h };
    let body = Rect { x: area.x, y: area.y + top_h, width: area.width, height: body_h };
    let footer = Rect {
        x: area.x,
        y: area.y + top_h + body_h,
        width: area.width,
        height: bot_h,
    };
    (header, body, footer)
}

/// Sum of the first `i` percentage entries.
pub open spec fn psum(ps: Seq<u16>, i: int) -> int
    decreases i,
{
    if i <= 0 {
        0
    } else {
        psum(ps, i - 1) + ps[i - 1]
    }
}

/// The partial sums of the percentages grow with the index and start at zero.
pub proof fn lemma_psum_monotonic(ps: Seq<u16>, i: int, j: int)
    requires
        0 <= i <= j,
    ensures
        psum(ps, i) <= psum(ps, j),
    decreases j - i,
{
    if i < j {
        lemma_psum_monotonic(ps, i, j - 1);
    }
}

/// Left cell boundary of band `i` within a band of width `w`: the width
/// scaled by the percentages of the bands before `i`, rounded down.
pub open spec fn band_bound(w: int, ps: Seq<u16>, i: int) -> int {
    w * psum(ps, i) / 100
}

/// Band `i` of a percentage split: it spans from boundary `i` to boundary
/// `i + 1` and keeps the vertical extent of the area.
pub open spec fn spec_hsplit_band(area: Rect, ps: Seq<u16>, i: int) -> Rect {
    Rect {
        x: (area.x + band_bound(area.width as int, ps, i)) as u16,
        y: area.y,
        width: (band_bound(area.width as int, ps, i + 1) - band_bound(
            area.width as int,
            ps,
            i,
        )) as u16,
        height: area.height,
    }
}

/// All bands of a percentage split, left to right.
pub open spec fn spec_hsplit(area: Rect, ps: Seq<u16>) -> Seq<Rect> {
    Seq::new(ps.len(), |i: int| spec_hsplit_band(area, ps, i))
}

/// The total width of a run of rectangles.
pub open spec fn width_sum(s: Seq<Rect>) -> int
    decreases s.len(),
{
    if s.len() == 0 {
        0
    } else {
        width_sum(s.drop_last()) + s.last().width
    }
}

/// Split an area into horizontal bands of the given percentage widths.
/// Since the percentages sum to one hundred, the bands are contiguous and
/// tile the full width of the area: their widths sum to it exactly.
pub fn hsplit_percent(area: Rect, percents: &Vec<u16>) -> (r: Vec<Rect>)
    requires
        area.wf(),
        psum(percents@, percents@.len() as int) == 100,
    ensures
        r@ == spec_hsplit(area, percents@),
        r@.len() == percents@.len(),
        width_sum(r@) == area.width,
        forall|j: int| 0 <= j < r@.len() ==> (#[trigger] r@[j]).wf(),
{
    let w32: u32 = area.width as u32;
    let ghost wi: int = area.width as int;
    let mut r: Vec<Rect> = Vec::new();
    let mut acc: u32 = 0;
    let mut prev: u16 = 0;
    let mut i: usize = 0;
    proof {
        assert(band_bound(wi, percents@, 0) == 0);
    }
    while i < percents.len()
        invariant
            i <= percents@.len(),
            area.wf(),
            w32 == area.width as u32,
            wi == area.width as int,
            psum(percents@, percents@.len() as int) == 100,
            acc == psum(percents@, i as int),
            0 <= acc <= 100,
            prev == band_bound(wi, percents@, i as int),
            prev <= area.width,
            r@.len() == i,
            forall|j: int| 0 <= j < i ==> r@[j] == spec_hsplit_band(area, percents@, j),
            forall|j: int| 0 <= j < i ==> (#[trigger] r@[j]).wf(),
            width_sum(r@) == prev,
        decreases percents@.len() - i,
    {
        let ghost ii: int = i as int;
        let ghost ps: Seq<u16> = percents@;
        proof {
            lemma_psum_monotonic(ps, 0, ii);
            lemma_psum_monotonic(ps, ii, ii + 1);
            lemma_psum_monotonic(ps, ii + 1, ps.len() as int);
            lemma_mul_inequality(psum(ps, ii), psum(ps, ii + 1), wi);
            lemma_mul_inequality(psum(ps, ii + 1), 100, wi);
            lemma_div_is_ordered(wi * psum(ps, ii), wi * psum(ps, ii + 1), 100);
            lemma_div_is_ordered(wi * psum(ps, ii + 1), 100 * wi, 100);
            lemma_div_multiples_vanish(wi, 100);
            assert(band_bound(wi, ps, ii) <= band_bound(wi, ps, ii + 1));
            assert(band_bound(wi, ps, ii + 1) <= wi);
        }
        acc = acc + (percents[i] as u32);
        let next: u16 = ((w32 * acc) / 100) as u16;
        proof {
            assert(next == band_bound(wi, ps, ii + 1));
        }
        let band = Rect {
            x: area.x + prev,
            y: area.y,
            width: next - prev,
            height: area.height,
        };
        proof {
            assert(band == spec_hsplit_band(area, ps, ii));
            assert(r@.push(band).drop_last() =~= r@);
            assert(width_sum(r@.push(band)) == width_sum(r@) + band.width);
        }
        r.push(band);
        prev = next;
        i = i + 1;
    }
    proof {
        lemma_div_multiples_vanish(wi, 100);
        assert(prev == area.width);
        assert(r@ =~= spec_hsplit(area, percents@));
    }
    r
}

/// The interior of a box drawn with a border of the given thickness: that
/// many cells in from each side, or empty when the box is too small to
/// have an interior.
pub open spec fn spec_inset(area: Rect, margin: u16) -> Rect {
    if area.width > 2 * margin && area.height > 2 * margin {
        Rect {
            x: (area.x + margin) as u16,
            y: (area.y + margin) as u16,
            width: (area.width - 2 * margin) as u16,
            height: (area.height - 2 * margin) as u16,
        }
    } else {
        Rect { x: area.x, y: area.y, width: 0, height: 0 }
    }
}

/// Shrink an area to the interior of its border.
pub fn inset(area: Rect, margin: u16) -> (r: Rect)
    requires
        area.wf(),
    ensures
        r == spec_inset(area, margin),
        r.wf(),
{
    let m2: u32 = 2 * (margin as u32);
    if (area.width as u32) > m2 && (area.height as u32) > m2 {
        let m2_16: u16 = m2 as u16;
        Rect {
            x: area.x + margin,
            y: area.y + margin,
            width: area.width - m2_16,
            height: area.height - m2_16,
        }
    } else {
        Rect { x: area.x, y: area.y, width: 0, height: 0 }
    }
}

} // verus!
