//! The grid of Stokes triples of a frame and the greyscale picture of its
//! total intensity.

use crate::frame::lemma_index_in_grid;
use crate::frame::FrameView;
use crate::frame::RawFrame;
use crate::mosaic::quad_of;
use crate::mosaic::quads_of;
use crate::mosaic::LayoutView;
use crate::mosaic::MosaicLayout;
use crate::mosaic::Quad;
use crate::sampler::lemma_walk_is_row_major;
use crate::sampler::lemma_walk_reads_even_part;
use crate::sampler::MosaicSampler;
use crate::stokes::intensity_byte;
use crate::stokes::lemma_intensity_byte;
use crate::stokes::stokes_of_quad;
use crate::stokes::StokesSample;
use crate::stokes::StokesView;
use vstd::prelude::*;

verus! {

/// The mathematical content of a field: `cols * rows` triples, row by row.
pub struct FieldView {
    pub cols: nat,
    pub rows: nat,
    pub samples: Seq<StokesView>,
}

impl FieldView {
    /// The field holds exactly one triple per super-pixel.
    pub open spec fn wf(self) -> bool {
        self.samples.len() == self.cols * self.rows
    }

    /// The triple of the super-pixel in column `col` of row `row`.
    pub open spec fn sample(self, col: int, row: int) -> StokesView
        recommends
            0 <= col < self.cols,
            0 <= row < self.rows,
    {
        self.samples[row * self.cols + col]
    }
}

/// The mathematical content of a picture: `width * height` bytes, row by
/// row.
pub struct BufferView {
    pub width: nat,
    pub height: nat,
    pub pixels: Seq<u8>,
}

impl BufferView {
    /// The picture holds exactly one byte per position.
    pub open spec fn wf(self) -> bool {
        self.pixels.len() == self.width * self.height
    }

    /// The byte in column `col` of row `row`.
    pub open spec fn pixel(self, col: int, row: int) -> u8
        recommends
            0 <= col < self.width,
            0 <= row < self.height,
    {
        self.pixels[row * self.width + col]
    }
}

/// The field of a frame: one triple per whole super-pixel, so half the
/// frame's width by half its height, both rounded down.
pub open spec fn field_of(frame: FrameView, layout: LayoutView) -> FieldView {
    FieldView {
        cols: frame.cell_cols(),
        rows: frame.cell_rows(),
        samples: quads_of(frame, layout).map_values(|q: Quad| stokes_of_quad(q)),
    }
}

/// The picture of a field: the byte of each triple's total intensity, in the
/// field's own dimensions.
pub open spec fn buffer_of(field: FieldView) -> BufferView {
    BufferView {
        width: field.cols,
        height: field.rows,
        pixels: field.samples.map_values(|s: StokesView| intensity_byte(s.s0) as u8),
    }
}

/// The field of any frame, of even or odd dimensions, is whole and has half
/// the frame's width by half its height, both rounded down; the picture of
/// the field has the same dimensions and one byte per triple.
pub proof fn lemma_field_dimensions(frame: FrameView, layout: LayoutView)
    ensures
        field_of(frame, layout).wf(),
        field_of(frame, layout).cols == frame.width / 2,
        field_of(frame, layout).rows == frame.height / 2,
        field_of(frame, layout).samples.len() == (frame.width / 2) * (frame.height / 2),
        buffer_of(field_of(frame, layout)).wf(),
        buffer_of(field_of(frame, layout)).width == frame.width / 2,
        buffer_of(field_of(frame, layout)).height == frame.height / 2,
        buffer_of(field_of(frame, layout)).pixels.len() == (frame.width / 2) * (frame.height / 2),
{
}

/// A frame of odd width or height is cut down to its even part: field and
/// picture are those of the even part.
pub proof fn lemma_field_of_even_part(frame: FrameView, layout: LayoutView)
    requires
        layout.wf(),
    ensures
        field_of(frame.even_part(), layout) == field_of(frame, layout),
        buffer_of(field_of(frame.even_part(), layout)) == buffer_of(field_of(frame, layout)),
{
    lemma_walk_reads_even_part(frame, layout);
}

/// What stands at each place of the field and of the picture: the triple of
/// the super-pixel of that place, and the byte of that triple's total
/// intensity.
pub proof fn lemma_field_by_place(frame: FrameView, layout: LayoutView, col: int, row: int)
    requires
        0 <= col < frame.cell_cols(),
        0 <= row < frame.cell_rows(),
    ensures
        field_of(frame, layout).sample(col, row) == stokes_of_quad(quad_of(frame, layout, col, row)),
        buffer_of(field_of(frame, layout)).pixel(col, row) == intensity_byte(
            stokes_of_quad(quad_of(frame, layout, col, row)).s0,
        ),
{
    lemma_walk_is_row_major(frame, layout, col, row);
    let s0 = stokes_of_quad(quad_of(frame, layout, col, row)).s0;
    lemma_intensity_byte(s0, s0);
}

/// The pipeline is a function of the frame: two frames of the same
/// dimensions and the same samples give the same field and the same
/// picture.
pub proof fn lemma_same_frame_same_outputs(a: FrameView, b: FrameView, layout: LayoutView)
    requires
        a.width == b.width,
        a.height == b.height,
        a.samples.len() == b.samples.len(),
        forall|i: int| 0 <= i < a.samples.len() ==> a.samples[i] == b.samples[i],
    ensures
        field_of(a, layout) == field_of(b, layout),
        buffer_of(field_of(a, layout)) == buffer_of(field_of(b, layout)),
{
    assert(a.samples =~= b.samples);
}

/// The Stokes triples of a frame, one per super-pixel, row-major.
#[derive(Debug, PartialEq, Eq)]
pub struct StokesField {
    cols: u32,
    rows: u32,
    samples: Vec<StokesSample>,
}

impl View for StokesField {
    type V = FieldView;

    closed spec fn view(&self) -> FieldView {
        FieldView {
            cols: self.cols as nat,
            rows: self.rows as nat,
            samples: self.samples@.map_values(|s: StokesSample| s@),
        }
    }
}

impl StokesField {
    #[verifier::type_invariant]
    spec fn inv(self) -> bool {
        self.samples@.len() == self.cols * self.rows
    }

    /// Samples, normalizes and combines every super-pixel of `frame`.
    pub fn from_frame(frame: &RawFrame, layout: MosaicLayout) -> (field: StokesField)
        ensures
            field@ == field_of(frame@, layout@),
            field@.wf(),
            field@.cols == frame@.width / 2,
            field@.rows == frame@.height / 2,
            field@.samples.len() == (frame@.width / 2) * (frame@.height / 2),
    {
        let mut sampler = MosaicSampler::new(frame, layout);
        let cols: u32 = sampler.cols();
        let rows: u32 = sampler.rows();
        let mut samples: Vec<StokesSample> = Vec::new();
        let ghost all = sampler.all();
        loop
            invariant
                sampler.frame() == frame@,
                sampler.layout() == layout@,
                all == quads_of(frame@, layout@),
                samples@.len() == sampler.position(),
                sampler.position() <= all.len(),
                forall|k: int| 0 <= k < samples@.len() ==> (#[trigger] samples@[k])@ == stokes_of_quad(all[k]),
            ensures
                samples@.len() == all.len(),
            decreases all.len() - sampler.position(),
        {
            match sampler.next() {
                Some(quad) => {
                    samples.push(StokesSample::from_quad(quad));
                },
                None => {
                    break ;
                },
            }
        }
        let field = StokesField { cols, rows, samples };
        assert(field@.samples =~= field_of(frame@, layout@).samples);
        field
    }

    /// Number of triples in a row.
    pub fn cols(&self) -> (n: u32)
        ensures
            n == self@.cols,
            self@.wf(),
    {
        proof {
            use_type_invariant(self);
        }
        self.cols
    }

    /// Number of rows of triples.
    pub fn rows(&self) -> (n: u32)
        ensures
            n == self@.rows,
            self@.wf(),
    {
        proof {
            use_type_invariant(self);
        }
        self.rows
    }

    /// Number of triples in the field.
    pub fn len(&self) -> (n: usize)
        ensures
            n == self@.samples.len(),
            n == self@.cols * self@.rows,
    {
        proof {
            use_type_invariant(self);
        }
        self.samples.len()
    }

    /// Whether the field holds no triple.
    pub fn is_empty(&self) -> (empty: bool)
        ensures
            empty <==> self@.samples.len() == 0,
    {
        self.samples.len() == 0
    }

    /// The triple with the given number, counted row by row.
    pub fn nth(&self, index: usize) -> (sample: Option<StokesSample>)
        ensures
            sample is Some <==> index < self@.samples.len(),
            sample matches Some(s) ==> s@ == self@.samples[index as int],
    {
        if index < self.samples.len() {
            Some(self.samples[index])
        } else {
            None
        }
    }

    /// The triple of the super-pixel in column `col` of row `row`, if the
    /// field has one there.
    pub fn get(&self, col: u32, row: u32) -> (sample: Option<StokesSample>)
        ensures
            self@.wf(),
            sample is Some <==> col < self@.cols && row < self@.rows,
            sample matches Some(s) ==> s@ == self@.sample(col as int, row as int),
    {
        proof {
            use_type_invariant(self);
        }
        if col < self.cols && row < self.rows {
            proof {
                lemma_index_in_grid(col as int, row as int, self.cols as int, self.rows as int);
                assert(row * self.cols + col < self.samples.len());
            }
            let stride: usize = self.cols as usize;
            let above: usize = (row as usize) * stride;
            let index: usize = above + (col as usize);
            Some(self.samples[index])
        } else {
            None
        }
    }
}

/// The single-channel picture of a field's total intensity.
#[derive(Debug, PartialEq, Eq)]
pub struct VisualizationBuffer {
    width: u32,
    height: u32,
    pixels: Vec<u8>,
}

impl View for VisualizationBuffer {
    type V = BufferView;

    closed spec fn view(&self) -> BufferView {
        BufferView { width: self.width as nat, height: self.height as nat, pixels: self.pixels@ }
    }
}

impl VisualizationBuffer {
    #[verifier::type_invariant]
    spec fn inv(self) -> bool {
        self.pixels@.len() == self.width * self.height
    }

    /// Derives the picture of a field: one byte per triple, taken from its
    /// total intensity.
    pub fn from_field(field: &StokesField) -> (buffer: VisualizationBuffer)
        ensures
            buffer@ == buffer_of(field@),
            buffer@.wf(),
            buffer@.width == field@.cols,
            buffer@.height == field@.rows,
    {
        let width: u32 = field.cols();
        let height: u32 = field.rows();
        let count: usize = field.len();
        let mut pixels: Vec<u8> = Vec::new();
        let mut index: usize = 0;
        while index < count
            invariant
                count == field@.samples.len(),
                index <= count,
                pixels@.len() == index,
                forall|k: int| 0 <= k < index ==> pixels@[k] == intensity_byte(field@.samples[k].s0) as u8,
            decreases count - index,
        {
            let sample = field.nth(index).unwrap();
            pixels.push(sample.intensity());
            index = index + 1;
        }
        let buffer = VisualizationBuffer { width, height, pixels };
        assert(buffer@.pixels =~= buffer_of(field@).pixels);
        buffer
    }

    /// Number of bytes in a row.
    pub fn width(&self) -> (w: u32)
        ensures
            w == self@.width,
            self@.wf(),
    {
        proof {
            use_type_invariant(self);
        }
        self.width
    }

    /// Number of rows.
    pub fn height(&self) -> (h: u32)
        ensures
            h == self@.height,
            self@.wf(),
    {
        proof {
            use_type_invariant(self);
        }
        self.height
    }

    /// The bytes, row by row.
    pub fn pixels(&self) -> (p: &Vec<u8>)
        ensures
            p@ == self@.pixels,
            self@.wf(),
    {
        proof {
            use_type_invariant(self);
        }
        &self.pixels
    }

    /// The byte in column `col` of row `row`, if the picture has one there.
    pub fn get(&self, col: u32, row: u32) -> (pixel: Option<u8>)
        ensures
            self@.wf(),
            pixel is Some <==> col < self@.width && row < self@.height,
            pixel matches Some(p) ==> p == self@.pixel(col as int, row as int),
    {
        proof {
            use_type_invariant(self);
        }
        if col < self.width && row < self.height {
            proof {
                lemma_index_in_grid(col as int, row as int, self.width as int, self.height as int);
                assert(row * self.width + col < self.pixels.len());
            }
            let stride: usize = self.width as usize;
            let above: usize = (row as usize) * stride;
            let index: usize = above + (col as usize);
            Some(self.pixels[index])
        } else {
            None
        }
    }
}

} // verus!
