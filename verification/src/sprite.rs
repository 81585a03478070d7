use vstd::arithmetic::div_mod::{
    lemma_fundamental_div_mod, lemma_fundamental_div_mod_converse,
    lemma_mod_division_less_than_divisor,
};
use vstd::prelude::*;

use crate::cell::{spec_cell_of, Cell};

verus! {

/// An immutable (width, height, pixel-mask) triple.  The mask is row-major with
/// `width * height` bytes, each one a valid cell encoding.
pub struct Sprite {
    pub width: u32,
    pub height: u32,
    pub data: Vec<u8>,
}

impl Sprite {
    /// Well-formedness: the mask covers the rectangle and holds only cell encodings.
    pub open spec fn wf(self) -> bool {
        &&& self.data@.len() == self.width as int * self.height as int
        &&& forall|i: int| 0 <= i < self.data@.len() ==> self.data@[i] <= 2
    }

    /// Builds a sprite view over a validated mask.
    pub fn new(width: u32, height: u32, data: Vec<u8>) -> (s: Sprite)
        requires
            data@.len() == width as int * height as int,
            forall|i: int| 0 <= i < data@.len() ==> data@[i] <= 2,
        ensures
            s.width == width,
            s.height == height,
            s.data@ == data@,
            s.wf(),
    {
        Sprite { width, height, data }
    }
}

/// The cell at flat index `ci` after stamping a `sw` x `sh` mask at (x, y) into
/// a grid of the given row width: mask pixels covering `ci` replace it, all else
/// is kept.  A pixel is clipped (and the old cell kept) where it would pass the
/// right edge or run past the end of the buffer.
pub open spec fn spec_stamped(
    grid: Seq<Cell>,
    x: int,
    y: int,
    sw: int,
    sh: int,
    data: Seq<u8>,
    width: int,
    ci: int,
) -> Cell {
    let cx = ci % width;
    let cy = ci / width;
    if x <= cx && cx < x + sw && y <= cy && cy < y + sh {
        spec_cell_of(data[(cy - y) * sw + (cx - x)])
    } else {
        grid[ci]
    }
}

/// The whole grid after stamping a `sw` x `sh` mask at (x, y).
pub open spec fn stamped_grid(
    grid: Seq<Cell>,
    x: int,
    y: int,
    sw: int,
    sh: int,
    data: Seq<u8>,
    width: int,
) -> Seq<Cell> {
    Seq::new(grid.len(), |ci: int| spec_stamped(grid, x, y, sw, sh, data, width, ci))
}

/// Partial stamping: only mask columns before `cols`, plus the rows before
/// `rows` of column `cols`, have been written.
pub open spec fn spec_stamped_upto(
    grid: Seq<Cell>,
    x: int,
    y: int,
    sw: int,
    sh: int,
    data: Seq<u8>,
    width: int,
    ci: int,
    cols: int,
    rows: int,
) -> Cell {
    let cx = ci % width;
    let cy = ci / width;
    if x <= cx && cx < x + sw && y <= cy && cy < y + sh && (cx - x < cols || (cx - x == cols && cy
        - y < rows)) {
        spec_cell_of(data[(cy - y) * sw + (cx - x)])
    } else {
        grid[ci]
    }
}

/// Row-major flat index of (x, y) in a grid of the given row width.
pub fn get_index(x: u32, y: u32, width: u32) -> (i: usize)
    requires
        y as int * width as int + x as int <= u32::MAX as int,
    ensures
        i as int == y as int * width as int + x as int,
{
    (y * width + x) as usize
}

/// Stamps the sprite's pixel mask into the cell grid at offset (x, y).  Writes
/// that would fall outside the grid — past the right edge, or past the end of
/// the buffer — are skipped, so the stamp is clipped to the arena instead of
/// wrapping to the next row; this is the documented out-of-bounds policy.
#[verifier::loop_isolation(false)]
#[verifier::rlimit(60)]
pub fn draw_sprite(x: u32, y: u32, sprite: &Sprite, cells: &mut Vec<Cell>, width: u32)
    requires
        sprite.wf(),
        old(cells)@.len() <= u32::MAX as int,
        width == 0 ==> old(cells)@.len() == 0,
    ensures
        final(cells)@.len() == old(cells)@.len(),
        final(cells)@ == stamped_grid(
            old(cells)@,
            x as int,
            y as int,
            sprite.width as int,
            sprite.height as int,
            sprite.data@,
            width as int,
        ),
{
    let ghost g0 = old(cells)@;
    let ghost xg = x as int;
    let ghost yg = y as int;
    let ghost w = width as int;
    let sw = sprite.width;
    let sh = sprite.height;
    let mut xi: u32 = 0;
    while xi < sw
        invariant
            0 <= xi <= sw,
            cells@.len() == g0.len(),
            forall|ci: int|
                0 <= ci < cells@.len() ==> cells@[ci] == spec_stamped_upto(
                    g0,
                    xg,
                    yg,
                    sw as int,
                    sh as int,
                    sprite.data@,
                    w,
                    ci,
                    xi as int,
                    0,
                ),
        decreases sw - xi,
    {
        let mut yi: u32 = 0;
        while yi < sh
            invariant
                0 <= yi <= sh,
                xi < sw,
                cells@.len() == g0.len(),
                forall|ci: int|
                    0 <= ci < cells@.len() ==> cells@[ci] == spec_stamped_upto(
                        g0,
                        xg,
                        yg,
                        sw as int,
                        sh as int,
                        sprite.data@,
                        w,
                        ci,
                        xi as int,
                        yi as int,
                    ),
            decreases sh - yi,
        {
            let cx64: u64 = x as u64 + xi as u64;
            let cy64: u64 = y as u64 + yi as u64;
            let ghost pre = cells@;
            let mut wrote = false;
            let ghost mut idx_g: int = 0;
            if cx64 < width as u64 && cy64 <= u32::MAX as u64 {
                proof {
                    assert(cy64 * (width as u64) + cx64 <= u64::MAX) by (nonlinear_arith)
                        requires
                            cy64 <= u32::MAX as u64,
                            cx64 < width as u64,
                            width <= u32::MAX,
                    ;
                }
                let idx64: u64 = cy64 * (width as u64) + cx64;
                assert(idx64 == (yg + yi) * w + (xg + xi)) by (nonlinear_arith)
                    requires
                        cx64 == xg + xi,
                        cy64 == yg + yi,
                        cx64 < width as u64,
                        cy64 <= u32::MAX as u64,
                        w == width as int,
                        idx64 == cy64 * (width as u64) + cx64,
                ;
                if idx64 < cells.len() as u64 {
                    proof {
                        assert((yi as u64) * (sw as u64) + (xi as u64) <= u64::MAX
                            && (yi as int) * (sw as int) + (xi as int) < (sw as int) * (sh as int))
                            by (nonlinear_arith)
                            requires
                                0 <= yi < sh,
                                0 <= xi < sw,
                                sh <= u32::MAX,
                                sw <= u32::MAX,
                        ;
                    }
                    let sidx64: u64 = yi as u64 * sw as u64 + xi as u64;
                    proof {
                        assert(sidx64 < sprite.data@.len());
                    }
                    let d = sprite.data[sidx64 as usize];
                    let cellv = Cell::from_u8(d);
                    let idx = idx64 as usize;
                    cells.set(idx, cellv);
                    wrote = true;
                    proof {
                        idx_g = idx as int;
                        lemma_fundamental_div_mod_converse(idx_g, w, yg + yi, xg + xi);
                        assert(sprite.data@.len() == sprite.data.len());
                        assert(sidx64 <= usize::MAX as u64);
                        assert((sidx64 as usize) as int == (yi as int) * (sw as int) + (xi as int));
                        assert(cellv == spec_cell_of(
                            sprite.data@[(yi as int) * (sw as int) + (xi as int)],
                        ));
                        assert(cells@[idx_g] == cellv);
                    }
                }
            }
            proof {
                assert forall|ci: int| 0 <= ci < cells@.len() implies cells@[ci] == spec_stamped_upto(
                    g0,
                    xg,
                    yg,
                    sw as int,
                    sh as int,
                    sprite.data@,
                    w,
                    ci,
                    xi as int,
                    yi as int + 1,
                ) by {
                    lemma_mod_division_less_than_divisor(ci, w);
                    lemma_fundamental_div_mod(ci, w);
                    let cx = ci % w;
                    let cy = ci / w;
                    if wrote {
                        if ci == idx_g {
                            assert(cx == xg + xi && cy == yg + yi);
                            assert(cells@[ci] == spec_cell_of(sprite.data@[yi as int * sw as int + xi as int]));
                        } else {
                            // only the pixel (xi, yi) differs between the two
                            // partial stamps, and it maps to idx_g alone
                            if cx - xg == xi as int && cy - yg == yi as int {
                                assert(ci == w * cy + cx);
                                assert(idx_g == w * (yg + yi) + (xg + xi)) by (nonlinear_arith)
                                    requires
                                        idx_g == (yg + yi) * w + (xg + xi),
                                ;
                                assert(false);
                            }
                            assert(cells@[ci] == pre[ci]);
                        }
                    } else {
                        // the pixel was clipped: no in-range index decomposes to it
                        if cx - xg == xi as int && cy - yg == yi as int {
                            assert(ci == w * cy + cx);
                            assert(ci == (yg + yi) * w + (xg + xi)) by (nonlinear_arith)
                                requires
                                    ci == w * cy + cx,
                                    cx == xg + xi as int,
                                    cy == yg + yi as int,
                            ;
                            assert(false);
                        }
                    }
                }
            }
            yi = yi + 1;
        }
        proof {
            assert forall|ci: int| 0 <= ci < cells@.len() implies spec_stamped_upto(
                g0,
                xg,
                yg,
                sw as int,
                sh as int,
                sprite.data@,
                w,
                ci,
                xi as int,
                sh as int,
            ) == spec_stamped_upto(g0, xg, yg, sw as int, sh as int, sprite.data@, w, ci, xi as int + 1, 0) by {}
        }
        xi = xi + 1;
    }
    proof {
        assert forall|ci: int| 0 <= ci < cells@.len() implies spec_stamped_upto(
            g0,
            xg,
            yg,
            sw as int,
            sh as int,
            sprite.data@,
            w,
            ci,
            sw as int,
            0,
        ) == spec_stamped(g0, xg, yg, sw as int, sh as int, sprite.data@, w, ci) by {}
        assert(cells@ =~= stamped_grid(g0, xg, yg, sw as int, sh as int, sprite.data@, w));
    }
}

} // verus!
