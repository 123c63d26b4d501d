use vstd::prelude::*;
use crate::context::{
    BackendVariant, ConfigurationError, ConstructOutcome, DecodeContext, DrainStep, FeedStatus,
    HardDecodeError, drain_error, drain_images,
};
use crate::encoder::{packed_bytes, FrameEncoder};
use crate::frame::CompressedVideoFrame;

verus! {

/// Everything the backend and the sink reported during one decode call: the
/// construction outcome (consulted only when the call has to build a
/// context), the feed status for the submitted packet, the drain responses in
/// order, and whether the sink took each pushed message. The decode call is a
/// pure function of the session state and these events; the embedding that
/// owns the native backend performs the calls and records their outcomes.
pub struct BackendScript {
    pub construct: ConstructOutcome,
    pub feed: FeedStatus,
    pub drain: Vec<DrainStep>,
    pub sink_accepts: Vec<bool>,
}

/// Why a decode call failed. Construction failure leaves the session without
/// a context (the next call retries construction); a hard decode error keeps
/// the context for the same dimensions; a disconnected sink is fatal for the
/// session.
#[derive(Clone, Copy, PartialEq, Eq, Structural, Debug)]
pub enum DecodeError {
    Configuration(ConfigurationError),
    HardDecode(HardDecodeError),
    SinkDisconnected,
}

/// What one successful decode call did: whether it rebuilt the context, and
/// the wire messages pushed to the sink, in decode order.
#[derive(Debug)]
pub struct DecodeReport {
    pub rebuilt: bool,
    pub messages: Vec<Vec<u8>>,
}

/// How many of `n` pushed messages the sink takes before its first rejection:
/// all `n` when the first `n` responses are acceptances, otherwise the index
/// of the first rejection.
pub open spec fn sink_deliveries(accepts: Seq<bool>, n: int) -> int
    recommends
        n <= accepts.len(),
    decreases n,
{
    if n <= 0 {
        0
    } else if !accepts[0] {
        0
    } else {
        1 + sink_deliveries(accepts.skip(1), n - 1)
    }
}

/// Every picture in the drain responses is well formed (as the backend
/// guarantees of the pictures it hands out).
pub open spec fn script_images_wf(steps: Seq<DrainStep>) -> bool {
    forall|i: int|
        0 <= i < steps.len() ==> ((#[trigger] steps[i]) matches DrainStep::Picture(image)
            ==> image.wf())
}

/// One decode session: holds at most one decode context, detects dimension
/// changes, feeds compressed input, drains decoded pictures and packs each
/// one into a wire message for the session's destination surface. The
/// counters record how many contexts the session has built and disposed and
/// how many messages the sink has taken over the session's life.
pub struct VideoDecoder {
    pub context: Option<DecodeContext>,
    pub texture_id: i64,
    pub variant: BackendVariant,
    pub contexts_built: u64,
    pub contexts_disposed: u64,
    pub frames_delivered: u64,
}

impl VideoDecoder {
    /// The session invariant: whenever a context exists it is fully
    /// configured, for the session's backend variant.
    pub open spec fn wf(self) -> bool {
        self.context matches Some(context) ==> (context.is_configured() && context.variant
            == self.variant)
    }

    /// The frame needs a fresh context: none exists, or the one that exists
    /// was built for other dimensions.
    pub open spec fn needs_rebuild(self, frame: CompressedVideoFrame) -> bool {
        match self.context {
            None => true,
            Some(context) => context.width != frame.width || context.height != frame.height,
        }
    }

    /// A context is available once the rebuild decision is settled: either
    /// the existing one matches the frame, or construction completed.
    pub open spec fn context_available(self, frame: CompressedVideoFrame, script: BackendScript) -> bool {
        !self.needs_rebuild(frame) || script.construct is Complete
    }

    /// The context the session holds after a decode call: unchanged when the
    /// dimensions match; otherwise the freshly constructed context, or none
    /// when construction failed.
    pub open spec fn context_after(self, frame: CompressedVideoFrame, script: BackendScript) -> Option<DecodeContext> {
        if !self.needs_rebuild(frame) {
            self.context
        } else {
            match script.construct {
                ConstructOutcome::Complete(handles) => Some(
                    DecodeContext::constructed(frame.width, frame.height, self.variant, handles),
                ),
                ConstructOutcome::FailedAt(step) => None,
            }
        }
    }

    /// How many messages the call delivers to the sink: zero unless the call
    /// reaches the drain with a context and the drain terminates normally;
    /// then one per drained picture up to the sink's first rejection.
    pub open spec fn step_deliveries(self, frame: CompressedVideoFrame, script: BackendScript) -> int {
        if self.context_available(frame, script) && !(script.feed is Rejected) && drain_error(
            script.drain@,
        ) is None {
            sink_deliveries(script.sink_accepts@, drain_images(script.drain@).len() as int)
        } else {
            0
        }
    }

    /// The whole session state after one decode call.
    pub open spec fn session_step(self, frame: CompressedVideoFrame, script: BackendScript) -> VideoDecoder {
        VideoDecoder {
            context: self.context_after(frame, script),
            contexts_built: (self.contexts_built + if self.needs_rebuild(frame)
                && script.construct is Complete {
                1int
            } else {
                0int
            }) as u64,
            contexts_disposed: (self.contexts_disposed + if self.needs_rebuild(frame)
                && self.context is Some {
                1int
            } else {
                0int
            }) as u64,
            frames_delivered: (self.frames_delivered + self.step_deliveries(frame, script)) as u64,
            ..self
        }
    }

    /// The call succeeds exactly when a context is available, the backend
    /// accepts the packet (or merely wants more input), the drain terminates
    /// normally, and the sink takes every drained picture.
    pub open spec fn decode_succeeds(self, frame: CompressedVideoFrame, script: BackendScript) -> bool {
        &&& self.context_available(frame, script)
        &&& !(script.feed is Rejected)
        &&& drain_error(script.drain@) is None
        &&& sink_deliveries(script.sink_accepts@, drain_images(script.drain@).len() as int)
            == drain_images(script.drain@).len()
    }

    /// Creates a session for one destination surface, with the backend
    /// variant its contexts will be constructed with. No context exists until
    /// the first frame arrives.
    pub fn new(texture_id: i64, variant: BackendVariant) -> (decoder: VideoDecoder)
        ensures
            decoder.context is None,
            decoder.texture_id == texture_id,
            decoder.variant == variant,
            decoder.contexts_built == 0,
            decoder.contexts_disposed == 0,
            decoder.frames_delivered == 0,
            decoder.wf(),
    {
        VideoDecoder {
            context: None,
            texture_id,
            variant,
            contexts_built: 0,
            contexts_disposed: 0,
            frames_delivered: 0,
        }
    }

    /// Decodes one compressed frame: ensures the context matches the frame's
    /// dimensions (disposing and reconstructing on a change — exactly one
    /// rebuild per dimension change, never more), feeds the frame, drains
    /// every decodable picture, and packs and pushes each one to the sink,
    /// stopping at the sink's first rejection.
    #[verifier::loop_isolation(false)]
    pub fn decode(&mut self, frame: &CompressedVideoFrame, script: BackendScript) -> (r: Result<
        DecodeReport,
        DecodeError,
    >)
        requires
            old(self).wf(),
            old(self).contexts_built < u64::MAX,
            old(self).contexts_disposed < u64::MAX,
            old(self).frames_delivered + drain_images(script.drain@).len() <= u64::MAX,
            script_images_wf(script.drain@),
            script.sink_accepts@.len() >= drain_images(script.drain@).len(),
        ensures
            *final(self) == old(self).session_step(*frame, script),
            final(self).wf(),
            r is Ok <==> old(self).decode_succeeds(*frame, script),
            r matches Ok(report) ==> ({
                &&& report.rebuilt == old(self).needs_rebuild(*frame)
                &&& report.messages@.len() == drain_images(script.drain@).len()
                &&& forall|i: int|
                    0 <= i < report.messages@.len() ==> report.messages@[i]@ == packed_bytes(
                        old(self).texture_id,
                        drain_images(script.drain@)[i],
                    )
            }),
            old(self).needs_rebuild(*frame) ==> (script.construct matches
                ConstructOutcome::FailedAt(step) ==> (r matches Err(DecodeError::Configuration(e))
                && e.step == step)),
            old(self).context_available(*frame, script) ==> (script.feed matches
                FeedStatus::Rejected(code) ==> (r matches Err(DecodeError::HardDecode(e)) && e.code
                == code)),
            (old(self).context_available(*frame, script) && !(script.feed is Rejected)) ==> (
            drain_error(script.drain@) matches Some(code) ==> (r matches Err(
                DecodeError::HardDecode(e),
            ) && e.code == code)),
            (old(self).context_available(*frame, script) && !(script.feed is Rejected)
                && drain_error(script.drain@) is None && !old(self).decode_succeeds(
                *frame,
                script,
            )) ==> r matches Err(DecodeError::SinkDisconnected),
    {
        let rebuild: bool = match &self.context {
            None => true,
            Some(context) => context.width != frame.width || context.height != frame.height,
        };
        assert(rebuild == old(self).needs_rebuild(*frame));
        if rebuild {
            // The prior context, if any, is fully torn down before the
            // replacement is constructed.
            let had_context: bool = self.context.is_some();
            match &mut self.context {
                Some(context) => context.dispose(),
                None => {},
            }
            self.context = None;
            if had_context {
                self.contexts_disposed = self.contexts_disposed + 1;
            }
            match DecodeContext::construct(frame.width, frame.height, self.variant,
                script.construct) {
                Ok(context) => {
                    self.context = Some(context);
                    self.contexts_built = self.contexts_built + 1;
                },
                Err(e) => {
                    return Err(DecodeError::Configuration(e));
                },
            }
        }
        let context = self.context.as_ref().unwrap();
        match context.feed(&frame.buffer, script.feed) {
            Ok(u) => {},
            Err(e) => {
                return Err(DecodeError::HardDecode(e));
            },
        }
        let images = match context.drain(script.drain) {
            Ok(images) => images,
            Err(e) => {
                return Err(DecodeError::HardDecode(e));
            },
        };
        proof {
            lemma_drain_images_wf(script.drain@);
        }
        let ghost pre_loop = *self;
        let n: usize = images.len();
        let mut messages: Vec<Vec<u8>> = Vec::new();
        let mut i: usize = 0;
        while i < n
            invariant
                i <= n,
                n == images@.len(),
                *self == (VideoDecoder { frames_delivered: self.frames_delivered, ..pre_loop }),
                self.frames_delivered == pre_loop.frames_delivered + i,
                messages@.len() == i,
                forall|j: int| 0 <= j < i ==> script.sink_accepts@[j],
                forall|j: int|
                    0 <= j < i ==> messages@[j]@ == packed_bytes(
                        pre_loop.texture_id,
                        images@[j],
                    ),
            decreases n - i,
        {
            let message = FrameEncoder::pack(self.texture_id, &images[i]);
            if script.sink_accepts[i] {
                messages.push(message);
                self.frames_delivered = self.frames_delivered + 1;
                i = i + 1;
            } else {
                proof {
                    lemma_sink_deliveries_characterize(
                        script.sink_accepts@,
                        n as int,
                        i as int,
                    );
                }
                return Err(DecodeError::SinkDisconnected);
            }
        }
        proof {
            lemma_sink_deliveries_characterize(script.sink_accepts@, n as int, n as int);
        }
        Ok(DecodeReport { rebuilt: rebuild, messages })
    }

    /// Tears the session down: disposes the context, if one exists. The
    /// session keeps its counters and can be fed again (the next frame simply
    /// constructs a fresh context).
    pub fn dispose(&mut self)
        requires
            old(self).contexts_disposed < u64::MAX,
        ensures
            final(self).context is None,
            final(self).contexts_disposed == old(self).contexts_disposed + (
            if old(self).context is Some {
                1int
            } else {
                0int
            }),
            final(self).texture_id == old(self).texture_id,
            final(self).variant == old(self).variant,
            final(self).contexts_built == old(self).contexts_built,
            final(self).frames_delivered == old(self).frames_delivered,
            final(self).wf(),
    {
        let had_context: bool = self.context.is_some();
        match &mut self.context {
            Some(context) => context.dispose(),
            None => {},
        }
        self.context = None;
        if had_context {
            self.contexts_disposed = self.contexts_disposed + 1;
        }
    }
}

/// Every picture a drain yields out of well-formed drain responses is well
/// formed.
pub proof fn lemma_drain_images_wf(steps: Seq<DrainStep>)
    requires
        script_images_wf(steps),
    ensures
        forall|i: int| 0 <= i < drain_images(steps).len() ==> (#[trigger] drain_images(
            steps,
        )[i]).wf(),
    decreases steps.len(),
{
    if steps.len() > 0 {
        assert(script_images_wf(steps.skip(1))) by {
            assert(forall|i: int|
                0 <= i < steps.skip(1).len() ==> steps.skip(1)[i] == steps[i + 1]);
        }
        lemma_drain_images_wf(steps.skip(1));
        if steps[0] is Picture {
            assert(drain_images(steps) == seq![steps[0]->Picture_0] + drain_images(steps.skip(1)));
        }
    }
}

/// If the sink accepts the first `i` of `n` pushes and rejects the next (or
/// `i` is all of them), it delivers exactly `i`.
pub proof fn lemma_sink_deliveries_characterize(accepts: Seq<bool>, n: int, i: int)
    requires
        0 <= i <= n <= accepts.len(),
        forall|j: int| 0 <= j < i ==> accepts[j],
        i < n ==> !accepts[i],
    ensures
        sink_deliveries(accepts, n) == i,
    decreases i,
{
    if i > 0 {
        assert(accepts[0]);
        lemma_sink_deliveries_characterize(accepts.skip(1), n - 1, i - 1);
    }
}

/// The session state after a whole run of decode calls, first call first.
pub open spec fn session_after_calls(
    s: VideoDecoder,
    calls: Seq<(CompressedVideoFrame, BackendScript)>,
) -> VideoDecoder
    decreases calls.len(),
{
    if calls.len() == 0 {
        s
    } else {
        session_after_calls(s.session_step(calls[0].0, calls[0].1), calls.skip(1))
    }
}

/// Law: once the session holds a context for some dimensions, decode calls
/// whose frames all carry those dimensions never construct another context,
/// and the context survives the whole run unchanged — whatever the backend
/// and the sink report.
pub proof fn lemma_constant_dims_no_rebuild(
    s: VideoDecoder,
    calls: Seq<(CompressedVideoFrame, BackendScript)>,
    w: i32,
    h: i32,
)
    requires
        s.context matches Some(context) && context.width == w && context.height == h,
        forall|i: int|
            0 <= i < calls.len() ==> (#[trigger] calls[i]).0.width == w && calls[i].0.height == h,
    ensures
        session_after_calls(s, calls).contexts_built == s.contexts_built,
        session_after_calls(s, calls).context == s.context,
    decreases calls.len(),
{
    if calls.len() > 0 {
        let stepped = s.session_step(calls[0].0, calls[0].1);
        assert(!s.needs_rebuild(calls[0].0));
        assert(stepped.context == s.context);
        assert(forall|i: int|
            0 <= i < calls.skip(1).len() ==> #[trigger] calls.skip(1)[i] == calls[i + 1]);
        lemma_constant_dims_no_rebuild(stepped, calls.skip(1), w, h);
    }
}

/// Law: over any run of decode calls whose frames all share one pair of
/// dimensions, starting with no context and with the first call's
/// construction completing, exactly one context construction occurs,
/// regardless of how many calls the run has.
pub proof fn lemma_single_construction_for_constant_dims(
    s: VideoDecoder,
    calls: Seq<(CompressedVideoFrame, BackendScript)>,
    w: i32,
    h: i32,
)
    requires
        s.context is None,
        s.contexts_built < u64::MAX,
        calls.len() > 0,
        forall|i: int|
            0 <= i < calls.len() ==> (#[trigger] calls[i]).0.width == w && calls[i].0.height == h,
        calls[0].1.construct is Complete,
    ensures
        session_after_calls(s, calls).contexts_built == s.contexts_built + 1,
        session_after_calls(s, calls).context matches Some(context) && context.width == w
            && context.height == h,
    decreases calls.len(),
{
    let stepped = s.session_step(calls[0].0, calls[0].1);
    assert(stepped.contexts_built == s.contexts_built + 1);
    assert(forall|i: int|
        0 <= i < calls.skip(1).len() ==> #[trigger] calls.skip(1)[i] == calls[i + 1]);
    lemma_constant_dims_no_rebuild(stepped, calls.skip(1), w, h);
    assert(session_after_calls(s, calls) == session_after_calls(stepped, calls.skip(1)));
}

/// Law: a frame whose dimensions differ from the live context's disposes that
/// context — disposal leaves every handle field empty — and, when the
/// backend's construction completes, installs a freshly constructed context
/// for the frame's dimensions in its place, counting exactly one disposal and
/// one construction.
pub proof fn lemma_dimension_change_disposes_then_rebuilds(
    s: VideoDecoder,
    frame: CompressedVideoFrame,
    script: BackendScript,
)
    requires
        s.contexts_built < u64::MAX,
        s.contexts_disposed < u64::MAX,
        s.context matches Some(context) && (context.width != frame.width || context.height
            != frame.height),
    ensures
        s.context matches Some(context) ==> context.disposed_of().is_disposed(),
        s.session_step(frame, script).contexts_disposed == s.contexts_disposed + 1,
        script.construct matches ConstructOutcome::Complete(handles) ==> (s.session_step(
            frame,
            script,
        ).context == Some(
            DecodeContext::constructed(frame.width, frame.height, s.variant, handles),
        ) && s.session_step(frame, script).contexts_built == s.contexts_built + 1),
{
}

} // verus!
