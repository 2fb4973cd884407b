//! The life of one load request, from submission to delivery.
//!
//! A request moves through `Idle`, `Requested`, `Decoding`, `Computing`,
//! `Ready` and `Delivered`, or ends in `Failed`. Reading the file is the
//! caller's part; every other step is taken here. A step that is asked of a
//! request in another state leaves the request as it is.

use crate::channel::ResultChannel;
use crate::codec::decode;
use crate::codec::decoder_answer;
use crate::codec::frame_from_decoded;
use crate::codec::Decoded;
use crate::codec::DecodedView;
use crate::frame::FrameView;
use crate::frame::RawFrame;
use crate::mosaic::LayoutView;
use crate::pipeline::lemma_result_names_its_request;
use crate::pipeline::result_of;
use crate::pipeline::too_small;
use crate::pipeline::PipelineError;
use crate::pipeline::PipelineOrchestrator;
use crate::pipeline::ProcessingResult;
use crate::pipeline::ResultView;
use vstd::prelude::*;

verus! {

/// The states of a request.
#[derive(Clone, Copy, Debug, PartialEq, Eq, Structural)]
pub enum RequestState {
    Idle,
    Requested,
    Decoding,
    Computing,
    Ready,
    Delivered,
    Failed,
}

impl RequestState {
    /// The steps that a request can take. `Failed` is reached from
    /// `Requested` when the file cannot be read, from `Decoding` and from
    /// `Computing`.
    pub open spec fn leads_to(self, next: RequestState) -> bool {
        match (self, next) {
            (RequestState::Idle, RequestState::Requested) => true,
            (RequestState::Requested, RequestState::Decoding) => true,
            (RequestState::Requested, RequestState::Failed) => true,
            (RequestState::Decoding, RequestState::Computing) => true,
            (RequestState::Decoding, RequestState::Failed) => true,
            (RequestState::Computing, RequestState::Ready) => true,
            (RequestState::Computing, RequestState::Failed) => true,
            (RequestState::Ready, RequestState::Delivered) => true,
            _ => false,
        }
    }

    /// The states that no step leaves.
    pub open spec fn is_terminal(self) -> bool {
        self == RequestState::Delivered || self == RequestState::Failed
    }

    /// Whether a request in this state can take a step to `next`.
    pub fn can_become(self, next: RequestState) -> (allowed: bool)
        ensures
            allowed == self.leads_to(next),
    {
        match (self, next) {
            (RequestState::Idle, RequestState::Requested) => true,
            (RequestState::Requested, RequestState::Decoding) => true,
            (RequestState::Requested, RequestState::Failed) => true,
            (RequestState::Decoding, RequestState::Computing) => true,
            (RequestState::Decoding, RequestState::Failed) => true,
            (RequestState::Computing, RequestState::Ready) => true,
            (RequestState::Computing, RequestState::Failed) => true,
            (RequestState::Ready, RequestState::Delivered) => true,
            _ => false,
        }
    }

    /// Whether a request in this state has come to its end.
    pub fn is_final(self) -> (terminal: bool)
        ensures
            terminal == self.is_terminal(),
    {
        match self {
            RequestState::Delivered => true,
            RequestState::Failed => true,
            _ => false,
        }
    }
}

/// No step leaves a terminal state, and every other state has a step.
pub proof fn lemma_terminal_states(state: RequestState)
    ensures
        state.is_terminal() <==> forall|next: RequestState| !state.leads_to(next),
{
    if !state.is_terminal() {
        let next = match state {
            RequestState::Idle => RequestState::Requested,
            RequestState::Requested => RequestState::Decoding,
            RequestState::Decoding => RequestState::Computing,
            RequestState::Computing => RequestState::Ready,
            _ => RequestState::Delivered,
        };
        assert(state.leads_to(next));
    }
}

/// The mathematical content of a request.
pub enum RequestView {
    Idle,
    Requested { path: Seq<char> },
    Decoding { path: Seq<char>, bytes: Seq<u8> },
    Computing { path: Seq<char>, frame: FrameView },
    Ready { result: ResultView },
    Delivered { path: Seq<char> },
    Failed { path: Seq<char>, error: PipelineError },
}

impl RequestView {
    /// The state of the request.
    pub open spec fn state(self) -> RequestState {
        match self {
            RequestView::Idle => RequestState::Idle,
            RequestView::Requested { .. } => RequestState::Requested,
            RequestView::Decoding { .. } => RequestState::Decoding,
            RequestView::Computing { .. } => RequestState::Computing,
            RequestView::Ready { .. } => RequestState::Ready,
            RequestView::Delivered { .. } => RequestState::Delivered,
            RequestView::Failed { .. } => RequestState::Failed,
        }
    }

    /// The path of the request, once it has been submitted.
    pub open spec fn path(self) -> Option<Seq<char>> {
        match self {
            RequestView::Idle => None,
            RequestView::Requested { path } => Some(path),
            RequestView::Decoding { path, .. } => Some(path),
            RequestView::Computing { path, .. } => Some(path),
            RequestView::Ready { result } => Some(result.path),
            RequestView::Delivered { path } => Some(path),
            RequestView::Failed { path, .. } => Some(path),
        }
    }

    /// An idle request is submitted for `path`.
    pub open spec fn submitted(self, path: Seq<char>) -> RequestView {
        match self {
            RequestView::Idle => RequestView::Requested { path },
            _ => self,
        }
    }

    /// The file of a requested path was read, or could not be.
    pub open spec fn opened(self, file: Option<Seq<u8>>) -> RequestView {
        match self {
            RequestView::Requested { path } => match file {
                Some(bytes) => RequestView::Decoding { path, bytes },
                None => RequestView::Failed { path, error: PipelineError::Io },
            },
            _ => self,
        }
    }

    /// The decoder has answered.
    pub open spec fn decoded(self, decoded: DecodedView) -> RequestView {
        match self {
            RequestView::Decoding { path, bytes } => match decoded.frame() {
                Ok(frame) => RequestView::Computing { path, frame },
                Err(error) => RequestView::Failed { path, error },
            },
            _ => self,
        }
    }

    /// The field and the picture were computed and packaged, or the frame
    /// was refused.
    pub open spec fn computed(self, layout: LayoutView, strict: bool) -> RequestView {
        match self {
            RequestView::Computing { path, frame } => {
                if strict && too_small(frame) {
                    RequestView::Failed { path, error: PipelineError::Dimension }
                } else {
                    RequestView::Ready { result: result_of(path, frame, layout) }
                }
            },
            _ => self,
        }
    }

    /// The result of a ready request was pushed onto the channel.
    pub open spec fn delivered(self) -> RequestView {
        match self {
            RequestView::Ready { result } => RequestView::Delivered { path: result.path },
            _ => self,
        }
    }

    /// What a channel holds after this request was asked to deliver onto
    /// it.
    pub open spec fn pushed_onto(self, channel: Seq<ResultView>) -> Seq<ResultView> {
        match self {
            RequestView::Ready { result } => channel.push(result),
            _ => channel,
        }
    }
}

/// The whole life of a request: from `Idle`, the five steps in turn.
pub open spec fn life_of(
    path: Seq<char>,
    file: Option<Seq<u8>>,
    decoded: DecodedView,
    layout: LayoutView,
    strict: bool,
) -> RequestView {
    RequestView::Idle.submitted(path).opened(file).decoded(decoded).computed(layout, strict)
}

/// A request runs to its end and delivers all or nothing: after the five
/// steps it is `Delivered` or `Failed`. Delivered, it has pushed exactly one
/// result, whole and under its own path, behind what the channel held.
/// Failed, it has pushed nothing, and the error says where it failed: an
/// unreadable file before decoding, a decode or format error in decoding, a
/// dimension error in computing, the last only in strict mode.
pub proof fn lemma_request_delivers_all_or_nothing(
    path: Seq<char>,
    file: Option<Seq<u8>>,
    decoded: DecodedView,
    layout: LayoutView,
    strict: bool,
    channel: Seq<ResultView>,
)
    ensures
        ({
            let ready = life_of(path, file, decoded, layout, strict);
            let end = ready.delivered();
            let after = ready.pushed_onto(channel);
            &&& end.state().is_terminal()
            &&& end.path() == Some(path)
            &&& end is Delivered <==> file is Some && decoded.frame() is Ok && !(strict && too_small(
                decoded.frame()->Ok_0,
            ))
            &&& end is Delivered ==> after == channel.push(result_of(path, decoded.frame()->Ok_0, layout))
                && after.last().wf() && after.last().path == path
            &&& end is Failed ==> after == channel
            &&& end matches RequestView::Failed { error, .. } ==> {
                &&& error == PipelineError::Io <==> file is None
                &&& file is Some ==> decoded.frame() == Err::<FrameView, PipelineError>(error) || (strict
                    && error == PipelineError::Dimension && decoded.frame() is Ok)
            }
        }),
{
    if file is Some && decoded.frame() is Ok {
        lemma_result_names_its_request(path, decoded.frame()->Ok_0, path, decoded.frame()->Ok_0, layout);
    }
}

/// A request is a function of its file: two runs for the same path on the
/// same bytes come to the same end, and push the same result or nothing.
pub proof fn lemma_same_file_same_end(
    path: Seq<char>,
    bytes_a: Seq<u8>,
    bytes_b: Seq<u8>,
    layout: LayoutView,
    strict: bool,
    channel: Seq<ResultView>,
)
    requires
        bytes_a.len() == bytes_b.len(),
        forall|i: int| 0 <= i < bytes_a.len() ==> bytes_a[i] == bytes_b[i],
    ensures
        ({
            let a = life_of(path, Some(bytes_a), decoder_answer(path, bytes_a), layout, strict);
            let b = life_of(path, Some(bytes_b), decoder_answer(path, bytes_b), layout, strict);
            &&& a == b
            &&& a.delivered() == b.delivered()
            &&& a.pushed_onto(channel) == b.pushed_onto(channel)
        }),
{
    assert(bytes_a =~= bytes_b);
}

/// Every step of a request follows the arrows of `leads_to` or leaves the
/// request as it is.
pub proof fn lemma_steps_follow_the_arrows(
    request: RequestView,
    path: Seq<char>,
    file: Option<Seq<u8>>,
    decoded: DecodedView,
    layout: LayoutView,
    strict: bool,
)
    ensures
        request.state().leads_to(request.submitted(path).state()) || request.submitted(path) == request,
        request.state().leads_to(request.opened(file).state()) || request.opened(file) == request,
        request.state().leads_to(request.decoded(decoded).state()) || request.decoded(decoded) == request,
        request.state().leads_to(request.computed(layout, strict).state()) || request.computed(layout, strict)
            == request,
        request.state().leads_to(request.delivered().state()) || request.delivered() == request,
        request.state().is_terminal() ==> request.submitted(path) == request && request.opened(file) == request
            && request.decoded(decoded) == request && request.computed(layout, strict) == request
            && request.delivered() == request,
{
}

/// One load request, with what it holds in each state.
#[derive(Debug)]
pub enum Request {
    /// Nothing was asked yet.
    Idle,
    /// A path was submitted; its file is to be read.
    Requested { path: String },
    /// The file was read; its bytes are to be decoded.
    Decoding { path: String, bytes: Vec<u8> },
    /// The frame was decoded; field and picture are to be computed.
    Computing { path: String, frame: RawFrame },
    /// The result is packaged and waits for delivery.
    Ready { result: ProcessingResult },
    /// The result is on the channel.
    Delivered { path: String },
    /// The request came to nothing.
    Failed { path: String, error: PipelineError },
}

impl View for Request {
    type V = RequestView;

    open spec fn view(&self) -> RequestView {
        match self {
            Request::Idle => RequestView::Idle,
            Request::Requested { path } => RequestView::Requested { path: path@ },
            Request::Decoding { path, bytes } => RequestView::Decoding { path: path@, bytes: bytes@ },
            Request::Computing { path, frame } => RequestView::Computing { path: path@, frame: frame@ },
            Request::Ready { result } => RequestView::Ready { result: result@ },
            Request::Delivered { path } => RequestView::Delivered { path: path@ },
            Request::Failed { path, error } => RequestView::Failed { path: path@, error: *error },
        }
    }
}

impl Request {
    /// A request that was not yet submitted.
    pub fn new() -> (request: Request)
        ensures
            request@ == RequestView::Idle,
    {
        Request::Idle
    }

    /// The state of the request.
    pub fn state(&self) -> (state: RequestState)
        ensures
            state == self@.state(),
    {
        match self {
            Request::Idle => RequestState::Idle,
            Request::Requested { .. } => RequestState::Requested,
            Request::Decoding { .. } => RequestState::Decoding,
            Request::Computing { .. } => RequestState::Computing,
            Request::Ready { .. } => RequestState::Ready,
            Request::Delivered { .. } => RequestState::Delivered,
            Request::Failed { .. } => RequestState::Failed,
        }
    }

    /// The path of the request, once it has been submitted.
    pub fn path(&self) -> (path: Option<&str>)
        ensures
            path is Some <==> self@.path() is Some,
            path matches Some(p) ==> Some(p@) == self@.path(),
    {
        match self {
            Request::Idle => None,
            Request::Requested { path } => Some(path.as_str()),
            Request::Decoding { path, .. } => Some(path.as_str()),
            Request::Computing { path, .. } => Some(path.as_str()),
            Request::Ready { result } => Some(result.path()),
            Request::Delivered { path } => Some(path.as_str()),
            Request::Failed { path, .. } => Some(path.as_str()),
        }
    }

    /// The error of a failed request.
    pub fn error(&self) -> (error: Option<PipelineError>)
        ensures
            error is Some <==> self@ is Failed,
            error matches Some(e) ==> self@ matches RequestView::Failed { error: failure, .. } && e == failure,
    {
        match self {
            Request::Failed { error, .. } => Some(*error),
            _ => None,
        }
    }

    /// The result of a ready request.
    pub fn result(&self) -> (result: Option<&ProcessingResult>)
        ensures
            result is Some <==> self@ is Ready,
            result matches Some(r) ==> self@ == (RequestView::Ready { result: r@ }),
    {
        match self {
            Request::Ready { result } => Some(result),
            _ => None,
        }
    }

    /// `Idle` to `Requested`: the request is submitted for `path`.
    pub fn submit(self, path: String) -> (next: Request)
        ensures
            next@ == self@.submitted(path@),
            self@.state().leads_to(next@.state()) || next@ == self@,
    {
        match self {
            Request::Idle => Request::Requested { path },
            other => other,
        }
    }

    /// `Requested` to `Decoding`: the caller hands in the bytes of the file.
    /// With `None`, which says that the file is missing or cannot be read,
    /// the request fails at once with an I/O error.
    pub fn opened(self, file: Option<Vec<u8>>) -> (next: Request)
        ensures
            next@ == self@.opened(
                match file {
                    Some(bytes) => Some(bytes@),
                    None => None,
                },
            ),
            self@.state().leads_to(next@.state()) || next@ == self@,
    {
        match self {
            Request::Requested { path } => match file {
                Some(bytes) => Request::Decoding { path, bytes },
                None => Request::Failed { path, error: PipelineError::Io },
            },
            other => other,
        }
    }

    /// `Decoding` to `Computing`, for a given answer of the decoder: a
    /// greyscale image goes on as a frame, anything else fails the request
    /// with a decode error or a format error.
    pub fn decoded(self, decoded: Decoded) -> (next: Request)
        ensures
            next@ == self@.decoded(decoded@),
            self@.state().leads_to(next@.state()) || next@ == self@,
    {
        match self {
            Request::Decoding { path, bytes } => match frame_from_decoded(decoded) {
                Ok(frame) => Request::Computing { path, frame },
                Err(error) => Request::Failed { path, error },
            },
            other => other,
        }
    }

    /// `Decoding` to `Computing`: decodes the bytes in the container that
    /// the path's extension names, and takes the step that the decoder's
    /// answer decides. The request goes on to `Computing` with a whole frame
    /// or fails with a decode error or a format error, and keeps its path.
    pub fn decode(self) -> (next: Request)
        ensures
            self@ matches RequestView::Decoding { path, bytes } ==> next@ == self@.decoded(
                decoder_answer(path, bytes),
            ),
            !(self@ is Decoding) ==> next@ == self@,
            self@ is Decoding ==> next@ is Computing || next@ is Failed,
            self@ is Decoding ==> next@.path() == self@.path(),
            self@ matches RequestView::Decoding { path, bytes } ==> (next@ is Computing <==> decoder_answer(
                path,
                bytes,
            ) is Greyscale),
            self@ is Decoding ==> (next@ matches RequestView::Computing { frame, .. } ==> frame.wf()),
            self@ is Decoding ==> (next@ matches RequestView::Failed { error, .. } ==> error
                == PipelineError::Decode || error == PipelineError::Format),
            self@.state().leads_to(next@.state()) || next@ == self@,
    {
        match self {
            Request::Decoding { path, bytes } => {
                let answer = decode(path.as_str(), bytes.as_slice());
                Request::Decoding { path, bytes }.decoded(answer)
            },
            other => other,
        }
    }

    /// `Computing` to `Ready`: builds the field of the frame, derives the
    /// picture and packages the result. In strict mode a frame without a
    /// whole super-pixel fails the request with a dimension error.
    pub fn compute(self, orchestrator: &PipelineOrchestrator) -> (next: Request)
        ensures
            next@ == self@.computed(orchestrator.layout(), orchestrator.strict()),
            self@ is Computing ==> (next@ matches RequestView::Ready { result } ==> result.wf()),
            self@.state().leads_to(next@.state()) || next@ == self@,
    {
        match self {
            Request::Computing { path, frame } => {
                if orchestrator.refuses(&frame) {
                    Request::Failed { path, error: PipelineError::Dimension }
                } else {
                    Request::Ready { result: orchestrator.package(path, &frame) }
                }
            },
            other => other,
        }
    }

    /// `Ready` to `Delivered`: pushes the result onto the channel. A request
    /// in any other state pushes nothing.
    pub fn deliver(self, channel: &mut ResultChannel) -> (next: Request)
        ensures
            next@ == self@.delivered(),
            final(channel)@ == self@.pushed_onto(old(channel)@),
            self@.state().leads_to(next@.state()) || next@ == self@,
    {
        match self {
            Request::Ready { result } => {
                let path = result.path().to_owned();
                channel.send(result);
                Request::Delivered { path }
            },
            other => other,
        }
    }
}

} // verus!
