//! Walks a frame in strides of one super-pixel and hands out the four
//! samples of each.

use crate::frame::lemma_even_part_sample;
use crate::frame::lemma_index_in_grid;
use crate::frame::FrameView;
use crate::frame::RawFrame;
use crate::mosaic::quad_of;
use crate::mosaic::quads_of;
use crate::mosaic::LayoutView;
use crate::mosaic::MosaicLayout;
use crate::mosaic::PolarizerAngle;
use crate::mosaic::Quad;
use crate::mosaic::SubOffset;
use vstd::arithmetic::div_mod::lemma_fundamental_div_mod;
use vstd::arithmetic::div_mod::lemma_fundamental_div_mod_converse;
use vstd::prelude::*;

verus! {

/// The grid of super-pixels is never larger than the grid of samples.
pub proof fn lemma_cells_fit(frame: FrameView)
    ensures
        frame.cell_count() <= frame.width * frame.height,
        2 * frame.cell_cols() <= frame.width,
        2 * frame.cell_rows() <= frame.height,
{
    let w = frame.width as int;
    let h = frame.height as int;
    assert((w / 2) * (h / 2) <= w * h) by (nonlinear_arith)
        requires
            0 <= w,
            0 <= h,
    ;
}

/// The super-pixel in column `cell_col` of row `cell_row` is number
/// `cell_row * cols + cell_col` of the row-major walk, and the other way
/// round.
pub proof fn lemma_cell_number(frame: FrameView, cell_col: int, cell_row: int)
    requires
        0 <= cell_col < frame.cell_cols(),
        0 <= cell_row < frame.cell_rows(),
    ensures
        0 <= cell_row * frame.cell_cols() + cell_col < frame.cell_count(),
        (cell_row * frame.cell_cols() + cell_col) % (frame.cell_cols() as int) == cell_col,
        (cell_row * frame.cell_cols() + cell_col) / (frame.cell_cols() as int) == cell_row,
{
    let cols = frame.cell_cols() as int;
    let rows = frame.cell_rows() as int;
    lemma_index_in_grid(cell_col, cell_row, cols, rows);
    lemma_fundamental_div_mod_converse(cell_row * cols + cell_col, cols, cell_row, cell_col);
}

/// Number `k` of the row-major walk names a super-pixel inside the grid.
pub proof fn lemma_cell_place(frame: FrameView, k: int)
    requires
        0 <= k < frame.cell_count(),
    ensures
        0 < frame.cell_cols(),
        0 <= k % (frame.cell_cols() as int) < frame.cell_cols(),
        0 <= k / (frame.cell_cols() as int) < frame.cell_rows(),
        k == (k / (frame.cell_cols() as int)) * frame.cell_cols() + k % (frame.cell_cols() as int),
{
    let cols = frame.cell_cols() as int;
    let rows = frame.cell_rows() as int;
    assert(cols > 0) by (nonlinear_arith)
        requires
            0 <= k < cols * rows,
            0 <= cols,
    ;
    lemma_fundamental_div_mod(k, cols);
    let q = k / cols;
    let r = k % cols;
    assert(0 <= r < cols);
    assert(cols * q == q * cols) by (nonlinear_arith);
    assert(0 <= q < rows) by (nonlinear_arith)
        requires
            0 <= k < cols * rows,
            k == q * cols + r,
            0 <= r < cols,
            0 < cols,
    ;
}

/// The walk is row-major and steps by one super-pixel: the super-pixel in
/// column `cell_col` of row `cell_row` has the number
/// `cell_row * cols + cell_col`, and the walk has one entry for each
/// super-pixel.
pub proof fn lemma_walk_is_row_major(frame: FrameView, layout: LayoutView, cell_col: int, cell_row: int)
    requires
        0 <= cell_col < frame.cell_cols(),
        0 <= cell_row < frame.cell_rows(),
    ensures
        quads_of(frame, layout).len() == frame.cell_cols() * frame.cell_rows(),
        0 <= cell_row * frame.cell_cols() + cell_col < quads_of(frame, layout).len(),
        quads_of(frame, layout)[cell_row * frame.cell_cols() + cell_col] == quad_of(
            frame,
            layout,
            cell_col,
            cell_row,
        ),
{
    lemma_cell_number(frame, cell_col, cell_row);
}

/// A frame and its even part have the same super-pixels: the last column of
/// an odd width and the last row of an odd height take no part in the walk.
pub proof fn lemma_walk_reads_even_part(frame: FrameView, layout: LayoutView)
    requires
        layout.wf(),
    ensures
        frame.even_part().cell_cols() == frame.cell_cols(),
        frame.even_part().cell_rows() == frame.cell_rows(),
        quads_of(frame.even_part(), layout) == quads_of(frame, layout),
{
    let even = frame.even_part();
    let cols = frame.cell_cols() as int;
    assert(even.cell_cols() == frame.cell_cols());
    assert(even.cell_rows() == frame.cell_rows());
    assert forall|k: int| 0 <= k < frame.cell_count() implies quads_of(even, layout)[k] == quads_of(
        frame,
        layout,
    )[k] by {
        lemma_cell_place(frame, k);
        let c = k % cols;
        let r = k / cols;
        lemma_even_part_sample(frame, 2 * c + layout.o000.dx, 2 * r + layout.o000.dy);
        lemma_even_part_sample(frame, 2 * c + layout.o045.dx, 2 * r + layout.o045.dy);
        lemma_even_part_sample(frame, 2 * c + layout.o090.dx, 2 * r + layout.o090.dy);
        lemma_even_part_sample(frame, 2 * c + layout.o135.dx, 2 * r + layout.o135.dy);
    }
    assert(quads_of(even, layout) =~= quads_of(frame, layout));
}

/// A walk over the super-pixels of one frame, row by row. The walk is lazy:
/// a super-pixel is read when it is asked for. It can be started again at
/// any time.
pub struct MosaicSampler<'a> {
    frame: &'a RawFrame,
    layout: MosaicLayout,
    cursor: usize,
}

impl<'a> MosaicSampler<'a> {
    #[verifier::type_invariant]
    spec fn inv(self) -> bool {
        self.cursor <= self.frame@.cell_count()
    }

    /// The frame that is walked.
    pub closed spec fn frame(&self) -> FrameView {
        self.frame@
    }

    /// The layout by which the samples are named.
    pub closed spec fn layout(&self) -> LayoutView {
        self.layout@
    }

    /// Number of super-pixels that `next` has handed out since the start.
    pub closed spec fn position(&self) -> nat {
        self.cursor as nat
    }

    /// Every super-pixel of the walk, in order.
    pub open spec fn all(&self) -> Seq<Quad> {
        quads_of(self.frame(), self.layout())
    }

    /// A walk over `frame` that stands before its first super-pixel.
    pub fn new(frame: &'a RawFrame, layout: MosaicLayout) -> (sampler: MosaicSampler<'a>)
        ensures
            sampler.frame() == frame@,
            sampler.layout() == layout@,
            sampler.position() == 0,
    {
        MosaicSampler { frame, layout, cursor: 0 }
    }

    /// Number of super-pixels in a row: half the frame's width, rounded
    /// down.
    pub fn cols(&self) -> (n: u32)
        ensures
            n == self.frame().cell_cols(),
    {
        self.frame.width() / 2
    }

    /// Number of rows of super-pixels: half the frame's height, rounded
    /// down.
    pub fn rows(&self) -> (n: u32)
        ensures
            n == self.frame().cell_rows(),
    {
        self.frame.height() / 2
    }

    /// Number of super-pixels in the whole walk.
    pub fn len(&self) -> (n: usize)
        ensures
            n == self.frame().cell_count(),
            n == self.all().len(),
    {
        let cols: u32 = self.frame.width() / 2;
        let rows: u32 = self.frame.height() / 2;
        proof {
            lemma_cells_fit(self.frame@);
        }
        (cols as usize) * (rows as usize)
    }

    /// Whether the walk has no super-pixel at all, which is so exactly when
    /// the frame is narrower or lower than two samples.
    pub fn is_empty(&self) -> (empty: bool)
        ensures
            empty <==> self.frame().width < 2 || self.frame().height < 2,
            empty <==> self.all().len() == 0,
    {
        let width: u32 = self.frame.width();
        let height: u32 = self.frame.height();
        proof {
            let cols = (width / 2) as int;
            let rows = (height / 2) as int;
            assert(cols * rows == 0 <==> cols == 0 || rows == 0) by (nonlinear_arith)
                requires
                    0 <= cols,
                    0 <= rows,
            ;
        }
        width < 2 || height < 2
    }

    fn read(&self, place: SubOffset, left: u32, top: u32) -> (value: u8)
        requires
            place.in_cell(),
            left + 1 < self.frame().width <= u32::MAX,
            top + 1 < self.frame().height <= u32::MAX,
        ensures
            value == self.frame().sample(left + place.dx, top + place.dy),
    {
        let col: u32 = left + (place.dx as u32);
        let row: u32 = top + (place.dy as u32);
        let sample = self.frame.get(col, row);
        sample.unwrap()
    }

    /// The super-pixel in column `cell_col` of row `cell_row` of the grid of
    /// super-pixels, if the grid reaches that far.
    pub fn quad_at(&self, cell_col: u32, cell_row: u32) -> (quad: Option<Quad>)
        ensures
            quad is Some <==> cell_col < self.frame().cell_cols() && cell_row < self.frame().cell_rows(),
            quad matches Some(q) ==> q == quad_of(
                self.frame(),
                self.layout(),
                cell_col as int,
                cell_row as int,
            ),
    {
        let width: u32 = self.frame.width();
        let height: u32 = self.frame.height();
        if cell_col < width / 2 && cell_row < height / 2 {
            let left: u32 = 2 * cell_col;
            let top: u32 = 2 * cell_row;
            let o000 = self.layout.offset_of(PolarizerAngle::Deg000);
            let o045 = self.layout.offset_of(PolarizerAngle::Deg045);
            let o090 = self.layout.offset_of(PolarizerAngle::Deg090);
            let o135 = self.layout.offset_of(PolarizerAngle::Deg135);
            Some(
                Quad {
                    i000: self.read(o000, left, top),
                    i045: self.read(o045, left, top),
                    i090: self.read(o090, left, top),
                    i135: self.read(o135, left, top),
                },
            )
        } else {
            None
        }
    }

    /// The super-pixel with number `index` of the walk, if the walk is that
    /// long.
    pub fn get(&self, index: usize) -> (quad: Option<Quad>)
        ensures
            quad is Some <==> index < self.all().len(),
            quad matches Some(q) ==> q == self.all()[index as int],
    {
        let cols: usize = self.cols() as usize;
        let rows: usize = self.rows() as usize;
        if cols == 0 {
            assert(self.frame@.cell_count() == 0) by (nonlinear_arith)
                requires
                    self.frame@.cell_cols() == 0,
            ;
            return None;
        }
        let cell_col: usize = index % cols;
        let cell_row: usize = index / cols;
        proof {
            let k = index as int;
            let c = cols as int;
            let r = rows as int;
            lemma_fundamental_div_mod(k, c);
            assert(k / c < r <==> k < c * r) by (nonlinear_arith)
                requires
                    0 <= k,
                    0 < c,
                    0 <= r,
                    k == c * (k / c) + k % c,
                    0 <= k % c < c,
            ;
        }
        if cell_row < rows {
            self.quad_at(cell_col as u32, cell_row as u32)
        } else {
            None
        }
    }

    /// Hands out the super-pixel the walk stands before and steps past it.
    /// At the end of the walk it returns `None` and stays where it is.
    pub fn next(&mut self) -> (quad: Option<Quad>)
        ensures
            final(self).frame() == old(self).frame(),
            final(self).layout() == old(self).layout(),
            quad is Some <==> old(self).position() < old(self).all().len(),
            quad matches Some(q) ==> q == old(self).all()[old(self).position() as int]
                && final(self).position() == old(self).position() + 1,
            quad is None ==> final(self).position() == old(self).position(),
    {
        proof {
            use_type_invariant(&*self);
        }
        if self.cursor < self.len() {
            let quad = self.get(self.cursor);
            self.cursor = self.cursor + 1;
            quad
        } else {
            None
        }
    }

    /// Puts the walk back before its first super-pixel.
    pub fn restart(&mut self)
        ensures
            final(self).frame() == old(self).frame(),
            final(self).layout() == old(self).layout(),
            final(self).position() == 0,
    {
        self.cursor = 0;
    }

    /// Every super-pixel of the frame, row by row.
    pub fn quads(&self) -> (quads: Vec<Quad>)
        ensures
            quads@ == self.all(),
    {
        let count: usize = self.len();
        let mut quads: Vec<Quad> = Vec::new();
        let mut index: usize = 0;
        while index < count
            invariant
                count == self.all().len(),
                index <= count,
                quads@.len() == index,
                forall|k: int| 0 <= k < index ==> quads@[k] == self.all()[k],
            decreases count - index,
        {
            let quad = self.get(index);
            quads.push(quad.unwrap());
            index = index + 1;
        }
        quads
    }
}

} // verus!
