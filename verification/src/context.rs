use vstd::prelude::*;
use crate::frame::DecodedImage;

verus! {

/// Which backend the context was configured with. The software parser is
/// always available; the hardware-accelerated path is an explicit,
/// construction-time choice (an extension point: the platform probe may leave
/// it unavailable, in which case construction is asked for a software context
/// instead).
#[derive(Clone, Copy, PartialEq, Eq, Structural, Debug)]
pub enum BackendVariant {
    SoftwareParser,
    HardwareAccelerated,
}

/// The acquisition steps of a context construction, in the order they run.
/// Any step can fail; construction then releases everything acquired so far
/// and reports the step that failed.
#[derive(Clone, Copy, PartialEq, Eq, Structural, Debug)]
pub enum ConstructStep {
    FindDecoder,
    AllocateCodec,
    InitializeParser,
    AllocatePacketBuffer,
    AllocatePictureBuffer,
    AllocateTransferBuffer,
    OpenCodec,
}

/// The opaque backend handles a completed construction hands over. The parser
/// handle is used only on the software path, the transfer buffer only on the
/// hardware path.
#[derive(Clone, Copy, PartialEq, Eq, Structural, Debug)]
pub struct ContextHandles {
    pub codec: u64,
    pub parser: u64,
    pub packet: u64,
    pub picture: u64,
    pub transfer: u64,
}

/// What the backend reported for one construction attempt: every acquisition
/// succeeded, or the first step that failed.
#[derive(Clone, Copy, PartialEq, Eq, Structural, Debug)]
pub enum ConstructOutcome {
    Complete(ContextHandles),
    FailedAt(ConstructStep),
}

/// Codec or device lookup/allocation failure during construction. Fatal to
/// the attempted decode call; no context exists afterwards.
#[derive(Clone, Copy, PartialEq, Eq, Structural, Debug)]
pub struct ConfigurationError {
    pub step: ConstructStep,
}

/// A negative backend status, other than "needs more input" and "end of
/// stream", during feed, picture receive or hardware transfer. The context
/// stays configured; the caller may keep feeding later frames.
#[derive(Clone, Copy, PartialEq, Eq, Structural, Debug)]
pub struct HardDecodeError {
    pub code: i32,
}

/// The backend's response to one submitted packet. "Needs more input" and
/// "end of stream" are not errors: the feed completes with nothing yet
/// decodable.
#[derive(Clone, Copy, PartialEq, Eq, Structural, Debug)]
pub enum FeedStatus {
    Accepted,
    NeedsMoreInput,
    EndOfStream,
    Rejected(i32),
}

/// One backend response while draining decoded pictures: a picture came out,
/// the backend wants more input or reached end of stream (normal termination
/// of the drain), the device-to-host picture transfer failed (hardware path
/// only), or decoding failed outright.
pub enum DrainStep {
    Picture(DecodedImage),
    NeedsMoreInput,
    EndOfStream,
    TransferFailed(i32),
    Failed(i32),
}

/// The pictures a drain yields for the given backend responses: every picture
/// that precedes the first response that is not a picture.
pub open spec fn drain_images(steps: Seq<DrainStep>) -> Seq<DecodedImage>
    decreases steps.len(),
{
    if steps.len() == 0 {
        Seq::empty()
    } else {
        match steps[0] {
            DrainStep::Picture(image) => seq![image] + drain_images(steps.skip(1)),
            _ => Seq::empty(),
        }
    }
}

/// The error code a drain stops on, if the responses reach a failure before a
/// normal "needs more input"/"end of stream" termination.
pub open spec fn drain_error(steps: Seq<DrainStep>) -> Option<i32>
    decreases steps.len(),
{
    if steps.len() == 0 {
        None
    } else {
        match steps[0] {
            DrainStep::Picture(image) => drain_error(steps.skip(1)),
            DrainStep::NeedsMoreInput => None,
            DrainStep::EndOfStream => None,
            DrainStep::TransferFailed(code) => Some(code),
            DrainStep::Failed(code) => Some(code),
        }
    }
}

/// One configured instance of the native decoding backend: the dimensions it
/// was built for, the chosen backend variant, and one model field per native
/// resource, holding the backend's opaque handle while the resource is live.
/// A context is either fully configured (every handle its variant needs is
/// populated) or disposed (every handle field empty); no partially built
/// context is ever handed out.
pub struct DecodeContext {
    pub width: i32,
    pub height: i32,
    pub variant: BackendVariant,
    pub codec_handle: Option<u64>,
    pub parser_handle: Option<u64>,
    pub packet_buffer: Option<u64>,
    pub picture_buffer: Option<u64>,
    pub hw_transfer_buffer: Option<u64>,
}

impl DecodeContext {
    /// Fully constructed: every resource the variant needs is held, and none
    /// that it does not.
    pub open spec fn is_configured(self) -> bool {
        &&& self.codec_handle is Some
        &&& self.packet_buffer is Some
        &&& self.picture_buffer is Some
        &&& (self.parser_handle is Some <==> self.variant is SoftwareParser)
        &&& (self.hw_transfer_buffer is Some <==> self.variant is HardwareAccelerated)
    }

    /// Every handle field empty: indistinguishable from never-constructed.
    pub open spec fn is_disposed(self) -> bool {
        &&& self.codec_handle is None
        &&& self.parser_handle is None
        &&& self.packet_buffer is None
        &&& self.picture_buffer is None
        &&& self.hw_transfer_buffer is None
    }

    /// The state dispose leaves: the same context with every handle released.
    pub open spec fn disposed_of(self) -> DecodeContext {
        DecodeContext {
            codec_handle: None,
            parser_handle: None,
            packet_buffer: None,
            picture_buffer: None,
            hw_transfer_buffer: None,
            ..self
        }
    }

    /// The context a completed construction yields for the given dimensions,
    /// variant and backend-issued handles.
    pub open spec fn constructed(
        width: i32,
        height: i32,
        variant: BackendVariant,
        handles: ContextHandles,
    ) -> DecodeContext {
        DecodeContext {
            width,
            height,
            variant,
            codec_handle: Some(handles.codec),
            parser_handle: if variant is SoftwareParser {
                Some(handles.parser)
            } else {
                None
            },
            packet_buffer: Some(handles.packet),
            picture_buffer: Some(handles.picture),
            hw_transfer_buffer: if variant is HardwareAccelerated {
                Some(handles.transfer)
            } else {
                None
            },
        }
    }

    /// Builds a context for one frame size. Construction is all-or-nothing:
    /// if the backend failed at any acquisition step, everything acquired
    /// earlier in the call has been released again and no context exists.
    pub fn construct(
        width: i32,
        height: i32,
        variant: BackendVariant,
        outcome: ConstructOutcome,
    ) -> (r: Result<DecodeContext, ConfigurationError>)
        ensures
            outcome matches ConstructOutcome::Complete(handles) ==> (r matches Ok(context)
                && context == Self::constructed(width, height, variant, handles)),
            outcome matches ConstructOutcome::FailedAt(step) ==> (r matches Err(e) && e.step
                == step),
            r matches Ok(context) ==> (context.is_configured() && context.width == width
                && context.height == height && context.variant == variant),
    {
        match outcome {
            ConstructOutcome::Complete(handles) => {
                let parser_handle: Option<u64> = match variant {
                    BackendVariant::SoftwareParser => Some(handles.parser),
                    BackendVariant::HardwareAccelerated => None,
                };
                let hw_transfer_buffer: Option<u64> = match variant {
                    BackendVariant::SoftwareParser => None,
                    BackendVariant::HardwareAccelerated => Some(handles.transfer),
                };
                Ok(
                    DecodeContext {
                        width,
                        height,
                        variant,
                        codec_handle: Some(handles.codec),
                        parser_handle,
                        packet_buffer: Some(handles.packet),
                        picture_buffer: Some(handles.picture),
                        hw_transfer_buffer,
                    },
                )
            },
            ConstructOutcome::FailedAt(step) => Err(ConfigurationError { step }),
        }
    }

    /// Stages one compressed frame and submits it to the backend: on the
    /// software path the parser splits the buffer into access units first, on
    /// the hardware path the buffer is assigned to the packet directly, with
    /// no timestamps. "Needs more input" and "end of stream" complete the
    /// feed with nothing yet decodable; any other negative status is a hard
    /// error. Either way the context stays configured as it was.
    #[allow(unused_variables)]
    pub fn feed(&self, buffer: &Vec<u8>, status: FeedStatus) -> (r: Result<(), HardDecodeError>)
        requires
            self.is_configured(),
        ensures
            status matches FeedStatus::Rejected(code) ==> (r matches Err(e) && e.code == code),
            !(status is Rejected) ==> r is Ok,
    {
        match status {
            FeedStatus::Rejected(code) => Err(HardDecodeError { code }),
            _ => Ok(()),
        }
    }

    /// Pulls decoded pictures out of the backend until it reports "needs more
    /// input" or "end of stream" (normal termination) or fails. Each yielded
    /// picture was copied out of the backend's picture buffer, which is
    /// released for reuse before the next pull; a failed device-to-host
    /// transfer (hardware path) or any other negative status stops the drain
    /// with a hard error.
    #[verifier::loop_isolation(false)]
    pub fn drain(&self, steps: Vec<DrainStep>) -> (r: Result<
        Vec<DecodedImage>,
        HardDecodeError,
    >)
        requires
            self.is_configured(),
        ensures
            drain_error(steps@) matches Some(code) ==> (r matches Err(e) && e.code == code),
            drain_error(steps@) is None ==> (r matches Ok(images) && images@ == drain_images(
                steps@,
            )),
    {
        let ghost all_steps = steps@;
        let mut steps = steps;
        let mut images: Vec<DecodedImage> = Vec::new();
        proof {
            assert(images@ + drain_images(all_steps) =~= drain_images(all_steps));
        }
        loop
            invariant
                drain_error(all_steps) == drain_error(steps@),
                drain_error(all_steps) is None ==> drain_images(all_steps) == images@
                    + drain_images(steps@),
            decreases steps@.len(),
        {
            if steps.len() == 0 {
                proof {
                    assert(drain_images(steps@) =~= Seq::empty());
                    if drain_error(all_steps) is None {
                        assert(drain_images(all_steps) =~= images@);
                    }
                }
                return Ok(images);
            }
            let ghost prev = steps@;
            let step = steps.remove(0);
            proof {
                assert(prev.remove(0) =~= prev.skip(1));
                assert(prev =~= seq![step] + steps@);
                assert(prev[0] == step);
                assert(prev.skip(1) == steps@);
            }
            match step {
                DrainStep::Picture(image) => {
                    let ghost sofar = images@;
                    images.push(image);
                    proof {
                        assert(drain_images(prev) == seq![image] + drain_images(steps@));
                        assert(images@ =~= sofar + seq![image]);
                        if drain_error(all_steps) is None {
                            assert(drain_images(all_steps) =~= images@ + drain_images(steps@));
                        }
                    }
                },
                DrainStep::NeedsMoreInput => {
                    proof {
                        assert(drain_error(prev) is None);
                        assert(drain_images(prev) =~= Seq::empty());
                        assert(drain_images(all_steps) =~= images@);
                    }
                    return Ok(images);
                },
                DrainStep::EndOfStream => {
                    proof {
                        assert(drain_error(prev) is None);
                        assert(drain_images(prev) =~= Seq::empty());
                        assert(drain_images(all_steps) =~= images@);
                    }
                    return Ok(images);
                },
                DrainStep::TransferFailed(code) => {
                    proof {
                        assert(drain_error(prev) == Some(code));
                    }
                    return Err(HardDecodeError { code });
                },
                DrainStep::Failed(code) => {
                    proof {
                        assert(drain_error(prev) == Some(code));
                    }
                    return Err(HardDecodeError { code });
                },
            }
        }
    }

    /// Releases every backend resource the context still holds, in an order
    /// safe for the backend: flush the codec, free the hardware transfer
    /// buffer, close the parser, free the picture buffer, free the packet
    /// buffer, free the codec handle last. Idempotent: disposing an already
    /// disposed context changes nothing.
    pub fn dispose(&mut self)
        ensures
            *final(self) == old(self).disposed_of(),
    {
        self.hw_transfer_buffer = None;
        self.parser_handle = None;
        self.picture_buffer = None;
        self.packet_buffer = None;
        self.codec_handle = None;
    }
}

impl Default for DecodeContext {
    /// The empty-handle state: no resource held, as if never constructed.
    fn default() -> (context: Self)
        ensures
            context.is_disposed(),
            context.width == 0 && context.height == 0,
            context.variant is SoftwareParser,
    {
        DecodeContext {
            width: 0,
            height: 0,
            variant: BackendVariant::SoftwareParser,
            codec_handle: None,
            parser_handle: None,
            packet_buffer: None,
            picture_buffer: None,
            hw_transfer_buffer: None,
        }
    }
}

/// Law: dispose is idempotent — disposing twice in succession produces the
/// same empty-handle state as disposing once, and that state has every handle
/// field empty.
pub proof fn lemma_dispose_idempotent(context: DecodeContext)
    ensures
        context.disposed_of().disposed_of() == context.disposed_of(),
        context.disposed_of().is_disposed(),
{
}

/// Law: drain never loops past a normal termination — if the backend's
/// response at position `i` is "needs more input" or "end of stream" and only
/// pictures precede it, the drain yields exactly those `i` pictures, reports
/// no error, and responses after position `i` play no part.
pub proof fn lemma_drain_stops_at_terminal(steps: Seq<DrainStep>, i: int)
    requires
        0 <= i < steps.len(),
        steps[i] is NeedsMoreInput || steps[i] is EndOfStream,
        forall|j: int| 0 <= j < i ==> steps[j] is Picture,
    ensures
        drain_error(steps) is None,
        drain_images(steps) == drain_images(steps.take(i)),
        drain_images(steps).len() == i,
    decreases i,
{
    if i == 0 {
        assert(drain_images(steps.take(0)) =~= Seq::empty());
    } else {
        let tail = steps.skip(1);
        assert(steps[0] is Picture);
        lemma_drain_stops_at_terminal(tail, i - 1);
        assert(tail.take(i - 1) =~= steps.take(i).skip(1));
        assert(drain_images(steps.take(i)) =~= seq![steps.take(i)[0]->Picture_0] + drain_images(
            steps.take(i).skip(1),
        ));
        assert(drain_images(steps) =~= seq![steps[0]->Picture_0] + drain_images(tail));
    }
}

} // verus!
