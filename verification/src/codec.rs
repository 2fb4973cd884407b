//! Decoding of an image file's bytes into a frame, by the `image` crate.

use crate::frame::FrameView;
use crate::frame::RawFrame;
use crate::pipeline::PipelineError;
use vstd::prelude::*;

verus! {

/// What the `image` crate makes of the bytes of a file, read in the container
/// that the extension of the file's path names. The answer rests on the path
/// and the bytes alone: the extension is matched against a fixed list, and
/// the bytes are decoded from memory under the crate's fixed default limits.
pub uninterp spec fn decoder_answer(path: Seq<char>, bytes: Seq<u8>) -> DecodedView;

/// `image::ImageFormat::from_path`, then `image::load_from_memory_with_format`,
/// then `image::DynamicImage::as_luma8`: the answer of the decoder, in plain
/// values. An error of either call is a rejection; an image that is held as
/// 8-bit greyscale is handed on with its width, its height and a copy of its
/// buffer; an image held in any other form is not greyscale. Two claims: the
/// answer is `decoder_answer` of the path and the bytes, and the buffer of a
/// greyscale answer covers its dimensions. An image buffer of the `image`
/// crate is built only over a container of at least `width * height` samples
/// per channel, and keeps both together.
#[verifier::external_body]
fn ask_decoder(path: &str, bytes: &[u8]) -> (decoded: Decoded)
    ensures
        decoded@ == decoder_answer(path@, bytes@),
        decoded matches Decoded::Greyscale { width, height, samples } ==> samples@.len() >= width * height,
{
    let Ok(format) = image::ImageFormat::from_path(path) else {
        return Decoded::Rejected;
    };
    match image::load_from_memory_with_format(bytes, format) {
        Err(_) => Decoded::Rejected,
        Ok(image) => match image.as_luma8() {
            Some(grey) => Decoded::Greyscale {
                width: grey.width(),
                height: grey.height(),
                samples: grey.as_raw().clone(),
            },
            None => Decoded::NotGreyscale,
        },
    }
}

/// What the decoder made of a file.
#[derive(Debug, PartialEq, Eq)]
pub enum Decoded {
    /// The path names no supported container, or the bytes are not an image
    /// of that container.
    Rejected,
    /// An image that is not held as single-channel 8-bit greyscale.
    NotGreyscale,
    /// A single-channel 8-bit image: its dimensions and its buffer, row by
    /// row.
    Greyscale { width: u32, height: u32, samples: Vec<u8> },
}

/// The mathematical content of a decoder's answer.
pub enum DecodedView {
    Rejected,
    NotGreyscale,
    Greyscale { width: nat, height: nat, samples: Seq<u8> },
}

impl DecodedView {
    /// The frame that the answer gives, or the error of the request: a
    /// rejected file is a decode error, an image of another form a format
    /// error. A greyscale buffer gives a frame of its first `width * height`
    /// samples; a buffer shorter than that is a format error.
    pub open spec fn frame(self) -> Result<FrameView, PipelineError> {
        match self {
            DecodedView::Rejected => Err(PipelineError::Decode),
            DecodedView::NotGreyscale => Err(PipelineError::Format),
            DecodedView::Greyscale { width, height, samples } => {
                if samples.len() >= width * height {
                    Ok(FrameView { width, height, samples: samples.take((width * height) as int) })
                } else {
                    Err(PipelineError::Format)
                }
            },
        }
    }
}

impl View for Decoded {
    type V = DecodedView;

    open spec fn view(&self) -> DecodedView {
        match self {
            Decoded::Rejected => DecodedView::Rejected,
            Decoded::NotGreyscale => DecodedView::NotGreyscale,
            Decoded::Greyscale { width, height, samples } => DecodedView::Greyscale {
                width: *width as nat,
                height: *height as nat,
                samples: samples@,
            },
        }
    }
}

/// The frame that a decoded file gives, or the error of the request.
pub fn frame_from_decoded(decoded: Decoded) -> (outcome: Result<RawFrame, PipelineError>)
    ensures
        match outcome {
            Ok(frame) => decoded@.frame() == Ok::<FrameView, PipelineError>(frame@) && frame@.wf(),
            Err(error) => decoded@.frame() == Err::<FrameView, PipelineError>(error),
        },
{
    match decoded {
        Decoded::Rejected => Err(PipelineError::Decode),
        Decoded::NotGreyscale => Err(PipelineError::Format),
        Decoded::Greyscale { width, height, samples } => {
            assert(width * height <= u64::MAX) by (nonlinear_arith)
                requires
                    width <= u32::MAX,
                    height <= u32::MAX,
            ;
            let needed: u64 = (width as u64) * (height as u64);
            if (samples.len() as u64) < needed {
                Err(PipelineError::Format)
            } else {
                let mut samples = samples;
                samples.truncate(needed as usize);
                match RawFrame::new(width, height, samples) {
                    Some(frame) => Ok(frame),
                    None => Err(PipelineError::Format),
                }
            }
        },
    }
}

/// Decodes the bytes of the file at `path`, in the container that the
/// path's extension names. The answer is the decoder's; a greyscale answer
/// holds a whole image, so that the answer gives a frame exactly when it is
/// greyscale.
pub(crate) fn decode(path: &str, bytes: &[u8]) -> (decoded: Decoded)
    ensures
        decoded@ == decoder_answer(path@, bytes@),
        decoded matches Decoded::Greyscale { width, height, samples } ==> samples@.len() >= width * height,
        decoded@.frame() is Ok <==> decoded is Greyscale,
{
    ask_decoder(path, bytes)
}

/// Decodes the bytes of the file at `path` into a frame: the frame that the
/// decoder's answer gives, or the error that it gives. A failure is a decode
/// error or a format error, and a frame is owed exactly when the decoder
/// answers with a greyscale image.
pub fn decode_frame(path: &str, bytes: &[u8]) -> (outcome: Result<RawFrame, PipelineError>)
    ensures
        match outcome {
            Ok(frame) => decoder_answer(path@, bytes@).frame() == Ok::<FrameView, PipelineError>(frame@)
                && frame@.wf(),
            Err(error) => decoder_answer(path@, bytes@).frame() == Err::<FrameView, PipelineError>(error),
        },
        outcome is Ok <==> decoder_answer(path@, bytes@) is Greyscale,
        outcome matches Err(e) ==> e == PipelineError::Decode || e == PipelineError::Format,
{
    frame_from_decoded(decode(path, bytes))
}

/// Decoding is a function of the file: the same path with the same bytes
/// gives the same frame or the same error.
pub proof fn lemma_same_file_same_frame(
    path_a: Seq<char>,
    bytes_a: Seq<u8>,
    path_b: Seq<char>,
    bytes_b: Seq<u8>,
)
    requires
        path_a.len() == path_b.len(),
        forall|i: int| 0 <= i < path_a.len() ==> path_a[i] == path_b[i],
        bytes_a.len() == bytes_b.len(),
        forall|i: int| 0 <= i < bytes_a.len() ==> bytes_a[i] == bytes_b[i],
    ensures
        decoder_answer(path_a, bytes_a) == decoder_answer(path_b, bytes_b),
        decoder_answer(path_a, bytes_a).frame() == decoder_answer(path_b, bytes_b).frame(),
{
    assert(path_a =~= path_b);
    assert(bytes_a =~= bytes_b);
}

} // verus!
