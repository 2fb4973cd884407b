//! The raw sensor frame: a row-major grid of 8-bit samples.

use vstd::arithmetic::div_mod::lemma_fundamental_div_mod;
use vstd::arithmetic::div_mod::lemma_fundamental_div_mod_converse;
use vstd::prelude::*;

verus! {

/// The mathematical content of a frame.
pub struct FrameView {
    pub width: nat,
    pub height: nat,
    pub samples: Seq<u8>,
}

impl FrameView {
    /// The buffer holds exactly one sample per position.
    pub open spec fn wf(self) -> bool {
        self.samples.len() == self.width * self.height
    }

    /// The sample in column `col` of row `row`.
    pub open spec fn sample(self, col: int, row: int) -> u8
        recommends
            0 <= col < self.width,
            0 <= row < self.height,
    {
        self.samples[row * self.width + col]
    }

    /// Number of whole super-pixels in a row of the frame.
    pub open spec fn cell_cols(self) -> nat {
        self.width / 2
    }

    /// Number of whole rows of super-pixels in the frame.
    pub open spec fn cell_rows(self) -> nat {
        self.height / 2
    }

    /// Number of whole super-pixels in the frame.
    pub open spec fn cell_count(self) -> nat {
        self.cell_cols() * self.cell_rows()
    }

    /// The largest part of the frame that has an even width and an even
    /// height and starts at the top left: the last column of an odd width
    /// and the last row of an odd height are left out.
    pub open spec fn even_part(self) -> FrameView {
        let width = 2 * self.cell_cols();
        let height = 2 * self.cell_rows();
        FrameView {
            width,
            height,
            samples: Seq::new(width * height, |i: int| self.sample(i % (width as int), i / (width as int))),
        }
    }
}

/// Position `(col, row)` of a `width`-wide row-major grid lies inside a buffer
/// of `width * height` entries.
pub proof fn lemma_index_in_grid(col: int, row: int, width: int, height: int)
    requires
        0 <= col < width,
        0 <= row < height,
    ensures
        0 <= row * width + col < width * height,
        row * width <= row * width + col,
{
    assert(0 <= row * width) by (nonlinear_arith)
        requires
            0 <= row,
            0 <= width,
    ;
    assert(row * width + width <= height * width) by (nonlinear_arith)
        requires
            row + 1 <= height,
            0 <= width,
    ;
    assert(height * width == width * height) by (nonlinear_arith);
}

/// The even part of a frame is whole, and it holds the frame's own sample at
/// every position that it has.
pub proof fn lemma_even_part_sample(frame: FrameView, col: int, row: int)
    requires
        0 <= col < 2 * frame.cell_cols(),
        0 <= row < 2 * frame.cell_rows(),
    ensures
        frame.even_part().wf(),
        frame.even_part().sample(col, row) == frame.sample(col, row),
{
    let width = 2 * frame.cell_cols() as int;
    let height = 2 * frame.cell_rows() as int;
    lemma_index_in_grid(col, row, width, height);
    lemma_fundamental_div_mod_converse(row * width + col, width, row, col);
}

/// A whole frame of even width and even height is its own even part.
pub proof fn lemma_even_frame_is_its_even_part(frame: FrameView)
    requires
        frame.wf(),
        frame.width % 2 == 0,
        frame.height % 2 == 0,
    ensures
        frame.even_part() == frame,
{
    let width = frame.width as int;
    let even = frame.even_part();
    assert(even.width == frame.width);
    assert(even.height == frame.height);
    assert forall|i: int| 0 <= i < even.samples.len() implies even.samples[i] == frame.samples[i] by {
        assert(width > 0) by (nonlinear_arith)
            requires
                0 <= i < width * frame.height,
                0 <= width,
        ;
        lemma_fundamental_div_mod(i, width);
        assert(width * (i / width) == (i / width) * width) by (nonlinear_arith);
    }
    assert(even.samples =~= frame.samples);
}

/// A single-channel 8-bit frame, row-major.
#[derive(Debug, PartialEq, Eq)]
pub struct RawFrame {
    width: u32,
    height: u32,
    samples: Vec<u8>,
}

impl View for RawFrame {
    type V = FrameView;

    closed spec fn view(&self) -> FrameView {
        FrameView {
            width: self.width as nat,
            height: self.height as nat,
            samples: self.samples@,
        }
    }
}

impl RawFrame {
    #[verifier::type_invariant]
    spec fn inv(self) -> bool {
        self.samples@.len() == self.width * self.height
    }

    /// Builds a frame from its dimensions and its samples. The buffer has to
    /// hold exactly `width * height` samples; any other buffer is refused.
    pub fn new(width: u32, height: u32, samples: Vec<u8>) -> (frame: Option<RawFrame>)
        ensures
            frame is Some <==> samples@.len() == width * height,
            frame matches Some(f) ==> f@ == (FrameView {
                width: width as nat,
                height: height as nat,
                samples: samples@,
            }),
    {
        assert(width * height <= u64::MAX) by (nonlinear_arith)
            requires
                width <= u32::MAX,
                height <= u32::MAX,
        ;
        let expected: u64 = (width as u64) * (height as u64);
        if samples.len() as u64 == expected {
            Some(RawFrame { width, height, samples })
        } else {
            None
        }
    }

    /// Number of samples in a row.
    pub fn width(&self) -> (w: u32)
        ensures
            w == self@.width,
            self@.wf(),
            self@.samples.len() <= usize::MAX,
    {
        proof {
            use_type_invariant(self);
            assert(self.samples@.len() == self.samples.len());
        }
        self.width
    }

    /// Number of rows.
    pub fn height(&self) -> (h: u32)
        ensures
            h == self@.height,
            self@.wf(),
            self@.samples.len() <= usize::MAX,
    {
        proof {
            use_type_invariant(self);
            assert(self.samples@.len() == self.samples.len());
        }
        self.height
    }

    /// The samples, row by row.
    pub fn samples(&self) -> (s: &Vec<u8>)
        ensures
            s@ == self@.samples,
            self@.wf(),
    {
        proof {
            use_type_invariant(self);
        }
        &self.samples
    }

    /// A copy of the largest part of the frame that has an even width and an
    /// even height and starts at the top left.
    pub fn even_part(&self) -> (part: RawFrame)
        ensures
            part@ == self@.even_part(),
            part@.wf(),
    {
        proof {
            use_type_invariant(self);
        }
        let width: u32 = self.width / 2 * 2;
        let height: u32 = self.height / 2 * 2;
        let mut samples: Vec<u8> = Vec::new();
        let mut row: u32 = 0;
        while row < height
            invariant
                width == 2 * self@.cell_cols(),
                height == 2 * self@.cell_rows(),
                width <= self.width,
                height <= self.height,
                row <= height,
                samples@.len() == row * width,
                forall|i: int|
                    0 <= i < samples@.len() ==> samples@[i] == self@.sample(i % (width as int), i / (width as int)),
            decreases height - row,
        {
            let mut col: u32 = 0;
            while col < width
                invariant
                    width == 2 * self@.cell_cols(),
                    height == 2 * self@.cell_rows(),
                    width <= self.width,
                    height <= self.height,
                    row < height,
                    col <= width,
                    samples@.len() == row * width + col,
                    forall|i: int|
                        0 <= i < samples@.len() ==> samples@[i] == self@.sample(
                            i % (width as int),
                            i / (width as int),
                        ),
                decreases width - col,
            {
                proof {
                    lemma_fundamental_div_mod_converse(row * width + col, width as int, row as int, col as int);
                }
                let sample = self.get(col, row);
                samples.push(sample.unwrap());
                col = col + 1;
            }
            proof {
                assert((row + 1) * width == row * width + width) by (nonlinear_arith);
            }
            row = row + 1;
        }
        proof {
            assert(height * width == width * height) by (nonlinear_arith);
            assert(samples@ =~= self@.even_part().samples);
        }
        RawFrame { width, height, samples }
    }

    /// The sample in column `col` of row `row`, if the frame has one there.
    pub fn get(&self, col: u32, row: u32) -> (sample: Option<u8>)
        ensures
            self@.wf(),
            sample is Some <==> col < self@.width && row < self@.height,
            sample matches Some(v) ==> v == self@.sample(col as int, row as int),
    {
        proof {
            use_type_invariant(self);
        }
        if col < self.width && row < self.height {
            proof {
                lemma_index_in_grid(col as int, row as int, self.width as int, self.height as int);
                assert(row * self.width + col < self.samples.len());
            }
            let stride: usize = self.width as usize;
            let above: usize = (row as usize) * stride;
            let index: usize = above + (col as usize);
            Some(self.samples[index])
        } else {
            None
        }
    }
}

} // verus!
