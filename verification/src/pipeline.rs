//! One load request from a decoded frame to the result that is handed to
//! the display.

use crate::field::buffer_of;
use crate::field::field_of;
use crate::field::lemma_field_dimensions;
use crate::field::lemma_same_frame_same_outputs;
use crate::field::BufferView;
use crate::field::StokesField;
use crate::field::VisualizationBuffer;
use crate::frame::FrameView;
use crate::frame::RawFrame;
use crate::mosaic::standard_layout;
use crate::mosaic::LayoutView;
use crate::mosaic::MosaicLayout;
use vstd::prelude::*;

verus! {

/// Why a request failed.
#[derive(Clone, Copy, Debug, PartialEq, Eq, Structural)]
pub enum PipelineError {
    /// The path is missing or cannot be read.
    Io,
    /// The bytes do not parse as an image of a supported container.
    Decode,
    /// The decoded image is not single-channel 8-bit greyscale.
    Format,
    /// Strict mode only: the frame is narrower or lower than one
    /// super-pixel.
    Dimension,
}

impl PipelineError {
    /// A short description for the user.
    pub fn message(&self) -> (text: &'static str)
        ensures
            text@ == error_message(*self)@,
    {
        match self {
            PipelineError::Io => "failed to open image",
            PipelineError::Decode => "failed to decode image",
            PipelineError::Format => "failed to read image as greyscale",
            PipelineError::Dimension => "image is smaller than one 2x2 super-pixel",
        }
    }
}

/// The description of each error.
pub open spec fn error_message(error: PipelineError) -> &'static str {
    match error {
        PipelineError::Io => "failed to open image",
        PipelineError::Decode => "failed to decode image",
        PipelineError::Format => "failed to read image as greyscale",
        PipelineError::Dimension => "image is smaller than one 2x2 super-pixel",
    }
}

/// The mathematical content of a result.
pub struct ResultView {
    pub path: Seq<char>,
    pub width: nat,
    pub height: nat,
    pub buffer: BufferView,
}

impl ResultView {
    /// The picture is whole and has half the frame's dimensions, rounded
    /// down.
    pub open spec fn wf(self) -> bool {
        &&& self.buffer.wf()
        &&& self.buffer.width == self.width / 2
        &&& self.buffer.height == self.height / 2
    }
}

/// The frame has no whole super-pixel.
pub open spec fn too_small(frame: FrameView) -> bool {
    frame.width < 2 || frame.height < 2
}

/// The result of the request for `path` whose file decoded to `frame`.
pub open spec fn result_of(path: Seq<char>, frame: FrameView, layout: LayoutView) -> ResultView {
    ResultView {
        path,
        width: frame.width,
        height: frame.height,
        buffer: buffer_of(field_of(frame, layout)),
    }
}

/// A result is whole, carries the path and the dimensions of its own
/// request, and so cannot be taken for the result of a request for another
/// path.
pub proof fn lemma_result_names_its_request(
    path: Seq<char>,
    frame: FrameView,
    other_path: Seq<char>,
    other_frame: FrameView,
    layout: LayoutView,
)
    ensures
        result_of(path, frame, layout).wf(),
        result_of(path, frame, layout).path == path,
        result_of(path, frame, layout).width == frame.width,
        result_of(path, frame, layout).height == frame.height,
        path != other_path ==> result_of(path, frame, layout) != result_of(other_path, other_frame, layout),
{
    lemma_field_dimensions(frame, layout);
}

/// Running a request twice on the same path and on frames of the same
/// dimensions and samples gives the same result.
pub proof fn lemma_same_request_same_result(path: Seq<char>, a: FrameView, b: FrameView, layout: LayoutView)
    requires
        a.width == b.width,
        a.height == b.height,
        a.samples.len() == b.samples.len(),
        forall|i: int| 0 <= i < a.samples.len() ==> a.samples[i] == b.samples[i],
    ensures
        result_of(path, a, layout) == result_of(path, b, layout),
{
    lemma_same_frame_same_outputs(a, b, layout);
}

/// What a finished request hands to the display: the path it was asked
/// for, the dimensions of the frame it read, and the picture of the total
/// intensity. It cannot be changed once it is built.
#[derive(Debug, PartialEq, Eq)]
pub struct ProcessingResult {
    path: String,
    width: u32,
    height: u32,
    visualization: VisualizationBuffer,
}

impl View for ProcessingResult {
    type V = ResultView;

    closed spec fn view(&self) -> ResultView {
        ResultView {
            path: self.path@,
            width: self.width as nat,
            height: self.height as nat,
            buffer: self.visualization@,
        }
    }
}

impl ProcessingResult {
    #[verifier::type_invariant]
    spec fn inv(self) -> bool {
        &&& self.visualization@.wf()
        &&& self.visualization@.width == self.width / 2
        &&& self.visualization@.height == self.height / 2
    }

    /// The path of the request that this result answers.
    pub fn path(&self) -> (path: &str)
        ensures
            path@ == self@.path,
    {
        self.path.as_str()
    }

    /// Width and height of the frame that was read.
    pub fn dim(&self) -> (dim: (u32, u32))
        ensures
            dim.0 == self@.width,
            dim.1 == self@.height,
    {
        (self.width, self.height)
    }

    /// The picture of the total intensity.
    pub fn visualization(&self) -> (buffer: &VisualizationBuffer)
        ensures
            buffer@ == self@.buffer,
            self@.wf(),
    {
        proof {
            use_type_invariant(self);
        }
        &self.visualization
    }
}

/// Runs load requests: it holds the layout of the mosaic and whether frames
/// without a whole super-pixel are refused.
#[derive(Clone, Copy, Debug)]
pub struct PipelineOrchestrator {
    layout: MosaicLayout,
    strict: bool,
}

impl PipelineOrchestrator {
    /// The layout by which frames are sampled.
    pub closed spec fn layout(&self) -> LayoutView {
        self.layout@
    }

    /// Whether a frame without a whole super-pixel is an error.
    pub closed spec fn strict(&self) -> bool {
        self.strict
    }

    /// An orchestrator for the given layout.
    pub fn new(layout: MosaicLayout, strict: bool) -> (orchestrator: PipelineOrchestrator)
        ensures
            orchestrator.layout() == layout@,
            orchestrator.strict() == strict,
    {
        PipelineOrchestrator { layout, strict }
    }

    /// The orchestrator for the sensor's own layout. It accepts every frame:
    /// one without a whole super-pixel gives an empty field.
    pub fn standard() -> (orchestrator: PipelineOrchestrator)
        ensures
            orchestrator.layout() == standard_layout(),
            !orchestrator.strict(),
    {
        PipelineOrchestrator { layout: MosaicLayout::standard(), strict: false }
    }

    /// Whether this orchestrator refuses `frame`.
    pub fn refuses(&self, frame: &RawFrame) -> (refused: bool)
        ensures
            refused <==> self.strict() && too_small(frame@),
    {
        self.strict && (frame.width() < 2 || frame.height() < 2)
    }

    /// Builds the field of `frame`. Fails only in strict mode, and then
    /// exactly on a frame without a whole super-pixel.
    pub fn compute(&self, frame: &RawFrame) -> (outcome: Result<StokesField, PipelineError>)
        ensures
            outcome is Err <==> self.strict() && too_small(frame@),
            outcome matches Ok(field) ==> field@ == field_of(frame@, self.layout()) && field@.wf(),
            outcome matches Err(e) ==> e == PipelineError::Dimension,
    {
        if self.refuses(frame) {
            Err(PipelineError::Dimension)
        } else {
            Ok(StokesField::from_frame(frame, self.layout))
        }
    }

    /// Builds the field of `frame`, derives the picture and packages both
    /// with the path into the result of the request for `path`.
    pub fn package(&self, path: String, frame: &RawFrame) -> (result: ProcessingResult)
        ensures
            result@ == result_of(path@, frame@, self.layout()),
            result@.wf(),
    {
        let field = StokesField::from_frame(frame, self.layout);
        let visualization = VisualizationBuffer::from_field(&field);
        ProcessingResult { path, width: frame.width(), height: frame.height(), visualization }
    }

    /// Runs the request for `path` on the frame that its file decoded to.
    /// Fails only in strict mode, and then exactly on a frame without a
    /// whole super-pixel.
    pub fn process(&self, path: String, frame: &RawFrame) -> (outcome: Result<ProcessingResult, PipelineError>)
        ensures
            outcome is Err <==> self.strict() && too_small(frame@),
            outcome matches Ok(result) ==> result@ == result_of(path@, frame@, self.layout()) && result@.wf(),
            outcome matches Err(e) ==> e == PipelineError::Dimension,
    {
        if self.refuses(frame) {
            Err(PipelineError::Dimension)
        } else {
            Ok(self.package(path, frame))
        }
    }
}

} // verus!
