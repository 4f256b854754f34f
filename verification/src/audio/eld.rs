//! AAC-ELD decoder for the AirPods proprietary hi-res uplink.
//!   AOT 39, mono, 64000 Hz, 480-sample frame (7.5 ms), ~80 kbps VBR.
//!
//! The codec library does the decoding. What stands here decides in which
//! order it is called, what it is handed, and what is made of what it returns.
use vstd::prelude::*;

verus! {

pub const ELD_SAMPLE_RATE: u32 = 64000;

pub const ELD_FRAME_SAMPLES: usize = 480;

pub const ELD_CHANNELS: i32 = 1;

/// The AudioSpecificConfig of the stream.
pub const ELD_ASC: [u8; 4] = [0xF8, 0xE6, 0x30, 0x00];

/// The sample rate that the codec is opened with.
pub const ELD_CODING_RATE: i32 = 48000;

/// The longest access unit (AU) that is taken.
pub const ELD_INBUF_MAX: usize = 512;

/// What the codec library hands out and wants back.
#[derive(Clone, Copy, PartialEq, Eq, Structural, Debug)]
pub enum Handle {
    Context,
    Packet,
    Frame,
}

/// Which handles are held.
#[derive(Clone, Copy, PartialEq, Eq, Structural, Debug)]
pub struct Handles {
    pub context: bool,
    pub packet: bool,
    pub frame: bool,
}

impl Handles {
    pub open spec fn none() -> Self {
        Handles { context: false, packet: false, frame: false }
    }

    pub open spec fn holds(self, handle: Handle) -> bool {
        match handle {
            Handle::Context => self.context,
            Handle::Packet => self.packet,
            Handle::Frame => self.frame,
        }
    }

    /// The held handles, in the order in which they are given back: the frame
    /// and the packet before the context.
    pub open spec fn release_order(self) -> Seq<Handle> {
        seq![Handle::Frame, Handle::Packet, Handle::Context].filter(|h: Handle| self.holds(h))
    }
}

/// What is to be done next to open the codec.
#[derive(Clone, Copy, PartialEq, Eq, Structural, Debug)]
pub enum OpenStep {
    FindCodec,
    AllocContext,
    AllocExtradata,
    /// Open the codec on the context, with what `EldDecoder::setup` says set.
    OpenCodec,
    AllocPacket,
    AllocFrame,
    /// Nothing: the decoder can be used.
    Opened,
    /// Nothing: the decoder cannot be used, and what is held goes back.
    Closed,
}

impl OpenStep {
    /// The step that follows, given whether this one succeeded and what is
    /// held after it. The frame is asked for even if there is no packet.
    pub open spec fn next(self, ok: bool, handles: Handles) -> Self {
        match self {
            OpenStep::FindCodec if ok => OpenStep::AllocContext,
            OpenStep::AllocContext if ok => OpenStep::AllocExtradata,
            OpenStep::AllocExtradata if ok => OpenStep::OpenCodec,
            OpenStep::OpenCodec if ok => OpenStep::AllocPacket,
            OpenStep::AllocPacket => OpenStep::AllocFrame,
            OpenStep::AllocFrame if handles.packet && handles.frame => OpenStep::Opened,
            OpenStep::Opened => OpenStep::Opened,
            _ => OpenStep::Closed,
        }
    }

    /// What is held after this step.
    pub open spec fn handles_after(self, ok: bool, handles: Handles) -> Handles {
        match self {
            OpenStep::AllocContext => Handles { context: ok, ..handles },
            OpenStep::AllocPacket => Handles { packet: ok, ..handles },
            OpenStep::AllocFrame => Handles { frame: ok, ..handles },
            _ => handles,
        }
    }

    /// Whether `handles` are those that can be held at this step.
    pub open spec fn fits(self, handles: Handles) -> bool {
        match self {
            OpenStep::FindCodec | OpenStep::AllocContext => handles == Handles::none(),
            OpenStep::AllocExtradata | OpenStep::OpenCodec | OpenStep::AllocPacket => handles
                == (Handles { context: true, packet: false, frame: false }),
            OpenStep::AllocFrame => handles.context && !handles.frame,
            OpenStep::Opened => handles.context && handles.packet && handles.frame,
            OpenStep::Closed => true,
        }
    }
}

/// What is set on the codec's context before the codec is opened.
#[derive(Clone, Copy, PartialEq, Eq, Structural, Debug)]
pub struct CodecSetup {
    /// How many bytes of the extradata count; the padding does not.
    pub extradata_size: i32,
    pub sample_rate: i32,
    pub channels: i32,
}

/// How the samples of a decoded frame are stored.
#[derive(Clone, Copy, PartialEq, Eq, Structural, Debug)]
pub enum SampleFormat {
    FloatPlanar,
    Float,
    S16Planar,
    S16,
    Other,
}

impl SampleFormat {
    /// Whether each channel has a plane of its own, for a format that is
    /// understood.
    pub open spec fn planar(self) -> Option<bool> {
        match self {
            SampleFormat::FloatPlanar | SampleFormat::S16Planar => Some(true),
            SampleFormat::Float | SampleFormat::S16 => Some(false),
            SampleFormat::Other => None,
        }
    }
}

/// Which samples of a frame are wanted.
#[derive(Clone, Copy, PartialEq, Eq, Structural, Debug)]
pub struct FrameShape {
    pub planar: bool,
    pub channels: usize,
    pub samples: usize,
}

impl FrameShape {
    pub open spec fn total(self) -> int {
        self.samples * self.channels
    }

    pub open spec fn wf(self) -> bool {
        &&& self.channels > 0
        &&& self.samples > 0
        &&& self.total() <= usize::MAX
    }
}

/// The samples of a frame, as 16-bit integers: one plane for each channel, or
/// all of them interleaved.
pub enum FrameSamples {
    Planar(Vec<Vec<i16>>),
    Packed(Vec<i16>),
}

#[verifier::ext_equal]
pub enum FrameSamplesView {
    Planar(Seq<Seq<i16>>),
    Packed(Seq<i16>),
}

/// The samples of each plane.
pub open spec fn plane_views(planes: Seq<Vec<i16>>) -> Seq<Seq<i16>> {
    Seq::new(planes.len(), |c: int| planes[c]@)
}

impl View for FrameSamples {
    type V = FrameSamplesView;

    open spec fn view(&self) -> FrameSamplesView {
        match self {
            FrameSamples::Planar(planes) => FrameSamplesView::Planar(plane_views(planes@)),
            FrameSamples::Packed(samples) => FrameSamplesView::Packed(samples@),
        }
    }
}

impl FrameSamplesView {
    /// Whether these are at least the samples that `shape` asks for.
    pub open spec fn covers(self, shape: FrameShape) -> bool {
        match self {
            FrameSamplesView::Planar(planes) => {
                &&& shape.planar
                &&& planes.len() >= shape.channels
                &&& forall|c: int|
                    0 <= c < shape.channels ==> (#[trigger] planes[c]).len() >= shape.samples
            },
            FrameSamplesView::Packed(samples) => !shape.planar && samples.len() >= shape.total(),
        }
    }

    /// The samples of `shape` in the order in which they are played: sample by
    /// sample, and of each sample channel by channel.
    pub open spec fn interleaved(self, shape: FrameShape) -> Seq<i16> {
        match self {
            FrameSamplesView::Planar(planes) => Seq::new(
                shape.total() as nat,
                |k: int| planes[k % shape.channels as int][k / shape.channels as int],
            ),
            FrameSamplesView::Packed(samples) => samples.take(shape.total()),
        }
    }
}

/// What is to be done next to decode an AU.
#[derive(Clone, Copy, PartialEq, Eq, Structural, Debug)]
pub enum DecodeStep {
    /// Send the first `size` bytes of the input buffer to the codec.
    SendPacket { size: usize },
    ReceiveFrame,
    /// Look at how many channels and samples the frame has, and in which format.
    ReadHeader,
    ReadSamples(FrameShape),
    /// Nothing: that many samples were appended, or there was a decode error.
    Done(Option<usize>),
}

/// What became of a step. The numbers are the codec's return codes, which are
/// negative for an error.
pub enum DecodeEvent {
    Sent(i32),
    Received(i32),
    Header { channels: i32, samples: i32, format: SampleFormat },
    Samples(FrameSamples),
}

#[verifier::ext_equal]
pub enum DecodeEventView {
    Sent(int),
    Received(int),
    Header { channels: int, samples: int, format: SampleFormat },
    Samples(FrameSamplesView),
}

impl View for DecodeEvent {
    type V = DecodeEventView;

    open spec fn view(&self) -> DecodeEventView {
        match self {
            DecodeEvent::Sent(status) => DecodeEventView::Sent(*status as int),
            DecodeEvent::Received(status) => DecodeEventView::Received(*status as int),
            DecodeEvent::Header { channels, samples, format } => DecodeEventView::Header {
                channels: *channels as int,
                samples: *samples as int,
                format: *format,
            },
            DecodeEvent::Samples(samples) => DecodeEventView::Samples(samples@),
        }
    }
}

/// Whether an AU of `len` bytes is taken.
pub open spec fn is_admissible(len: int) -> bool {
    0 < len <= ELD_INBUF_MAX
}

impl DecodeStep {
    pub open spec fn wf(self) -> bool {
        self matches DecodeStep::ReadSamples(shape) ==> shape.wf()
    }

    /// Whether `event` reports on this step. The samples of a frame have to be
    /// as many as can be counted, and at least those that were asked for.
    pub open spec fn accepts(self, event: DecodeEventView) -> bool {
        match (self, event) {
            (DecodeStep::SendPacket { .. }, DecodeEventView::Sent(_)) => true,
            (DecodeStep::ReceiveFrame, DecodeEventView::Received(_)) => true,
            (DecodeStep::ReadHeader, DecodeEventView::Header { channels, samples, .. }) => channels
                > 0 && samples > 0 ==> samples * channels <= usize::MAX,
            (DecodeStep::ReadSamples(shape), DecodeEventView::Samples(samples)) => samples.covers(
                shape,
            ),
            _ => false,
        }
    }

    /// The step that follows.
    pub open spec fn next(self, event: DecodeEventView) -> Self {
        match (self, event) {
            (DecodeStep::SendPacket { .. }, DecodeEventView::Sent(status)) if status >= 0 => {
                DecodeStep::ReceiveFrame
            },
            (DecodeStep::ReceiveFrame, DecodeEventView::Received(status)) if status >= 0 => {
                DecodeStep::ReadHeader
            },
            (
                DecodeStep::ReadHeader,
                DecodeEventView::Header { channels, samples, format },
            ) if channels > 0 && samples > 0 && format.planar() is Some => DecodeStep::ReadSamples(
                FrameShape {
                    planar: format.planar()->0,
                    channels: channels as usize,
                    samples: samples as usize,
                },
            ),
            (DecodeStep::ReadSamples(shape), DecodeEventView::Samples(_)) => DecodeStep::Done(
                Some(shape.total() as usize),
            ),
            _ => DecodeStep::Done(None),
        }
    }

    /// The samples that are appended.
    pub open spec fn appended(self, event: DecodeEventView) -> Seq<i16> {
        match (self, event) {
            (
                DecodeStep::ReadSamples(shape),
                DecodeEventView::Samples(samples),
            ) => samples.interleaved(shape),
            _ => Seq::empty(),
        }
    }

    /// Takes in what became of this step; the samples of a frame are appended
    /// to `out`.
    pub fn advance(self, event: DecodeEvent, out: &mut Vec<i16>) -> (step: Self)
        requires
            self.wf(),
            self.accepts(event@),
        ensures
            step.wf(),
            step == self.next(event@),
            final(out)@ == old(out)@ + self.appended(event@),
            event matches DecodeEvent::Sent(status) ==> step == (if status < 0 {
                DecodeStep::Done(None)
            } else {
                DecodeStep::ReceiveFrame
            }),
            event matches DecodeEvent::Received(status) ==> step == (if status < 0 {
                DecodeStep::Done(None)
            } else {
                DecodeStep::ReadHeader
            }),
            event matches DecodeEvent::Header { channels, samples, format } ==> step == (
            if channels <= 0 || samples <= 0 || format == SampleFormat::Other {
                DecodeStep::Done(None)
            } else {
                DecodeStep::ReadSamples(
                    FrameShape {
                        planar: format == SampleFormat::FloatPlanar || format
                            == SampleFormat::S16Planar,
                        channels: channels as usize,
                        samples: samples as usize,
                    },
                )
            }),
            !(event is Samples) ==> final(out)@ == old(out)@,
            event is Samples ==> {
                &&& self matches DecodeStep::ReadSamples(shape)
                &&& step == DecodeStep::Done(Some((shape.samples * shape.channels) as usize))
                &&& final(out)@.len() == old(out)@.len() + shape.samples * shape.channels
                &&& final(out)@.take(old(out)@.len() as int) == old(out)@
                &&& event matches DecodeEvent::Samples(FrameSamples::Planar(planes)) ==> forall|
                    i: int,
                    c: int,
                |
                    0 <= i < shape.samples && 0 <= c < shape.channels ==> (
                    #[trigger] planes@[c]@[i]) == final(out)@[old(out)@.len() + i * shape.channels
                        + c]
                &&& event matches DecodeEvent::Samples(FrameSamples::Packed(samples)) ==> forall|
                    k: int,
                |
                    0 <= k < shape.samples * shape.channels ==> (#[trigger] samples@[k])
                        == final(out)@[old(out)@.len() + k]
            },
    {
        let ghost before = out@;
        let ghost told = event;
        let step = match (self, event) {
            (DecodeStep::SendPacket { .. }, DecodeEvent::Sent(status)) => {
                if status < 0 {
                    DecodeStep::Done(None)
                } else {
                    DecodeStep::ReceiveFrame
                }
            },
            (DecodeStep::ReceiveFrame, DecodeEvent::Received(status)) => {
                if status < 0 {
                    DecodeStep::Done(None)
                } else {
                    DecodeStep::ReadHeader
                }
            },
            (DecodeStep::ReadHeader, DecodeEvent::Header { channels, samples, format }) => {
                let planar: Option<bool> = match format {
                    SampleFormat::FloatPlanar | SampleFormat::S16Planar => Some(true),
                    SampleFormat::Float | SampleFormat::S16 => Some(false),
                    SampleFormat::Other => None,
                };
                if channels <= 0 || samples <= 0 {
                    DecodeStep::Done(None)
                } else {
                    match planar {
                        Some(planar) => DecodeStep::ReadSamples(
                            FrameShape {
                                planar,
                                channels: channels as usize,
                                samples: samples as usize,
                            },
                        ),
                        None => DecodeStep::Done(None),
                    }
                }
            },
            (DecodeStep::ReadSamples(shape), DecodeEvent::Samples(FrameSamples::Planar(planes))) => {
                append_planar(&planes, shape, out);
                DecodeStep::Done(Some(shape.samples * shape.channels))
            },
            (
                DecodeStep::ReadSamples(shape),
                DecodeEvent::Samples(FrameSamples::Packed(samples)),
            ) => {
                append_packed(&samples, shape, out);
                DecodeStep::Done(Some(shape.samples * shape.channels))
            },
            _ => DecodeStep::Done(None),
        };
        assert(out@ =~= before + self.appended(event@));
        proof {
            if let DecodeStep::ReadSamples(shape) = self {
                assert(out@.take(before.len() as int) =~= before);
                if let DecodeEvent::Samples(FrameSamples::Planar(planes)) = told {
                    assert forall|i: int, c: int| 0 <= i < shape.samples && 0 <= c
                        < shape.channels implies (#[trigger] planes@[c]@[i]) == out@[before.len()
                        + i * shape.channels + c] by {
                        planes_are_interleaved(plane_views(planes@), shape, i, c);
                    }
                }
            }
        }
        step
    }
}

/// Appends the samples of a planar frame, interleaved.
fn append_planar(planes: &Vec<Vec<i16>>, shape: FrameShape, out: &mut Vec<i16>)
    requires
        shape.wf(),
        FrameSamplesView::Planar(plane_views(planes@)).covers(shape),
    ensures
        final(out)@ == old(out)@ + FrameSamplesView::Planar(plane_views(planes@)).interleaved(
            shape,
        ),
{
    let ghost before = out@;
    let ghost all = FrameSamplesView::Planar(plane_views(planes@)).interleaved(shape);
    let ghost channels = shape.channels as int;
    let mut i: usize = 0;
    assert(out@ =~= before + all.take(0));
    while i < shape.samples
        invariant
            i <= shape.samples,
            shape.wf(),
            channels == shape.channels,
            all == FrameSamplesView::Planar(plane_views(planes@)).interleaved(shape),
            FrameSamplesView::Planar(plane_views(planes@)).covers(shape),
            out@ == before + all.take(i * channels),
        decreases shape.samples - i,
    {
        assert((i + 1) * channels <= shape.total()) by (nonlinear_arith)
            requires
                i + 1 <= shape.samples,
                channels == shape.channels,
                shape.total() == shape.samples * shape.channels,
        ;
        assert((i + 1) * channels == i * channels + channels) by (nonlinear_arith);
        assert(i * channels >= 0) by (nonlinear_arith)
            requires
                channels >= 0,
        ;
        let mut c: usize = 0;
        while c < shape.channels
            invariant
                c <= shape.channels,
                i < shape.samples,
                shape.wf(),
                channels == shape.channels,
                0 <= i * channels,
                i * channels + channels <= shape.total(),
                all == FrameSamplesView::Planar(plane_views(planes@)).interleaved(shape),
                FrameSamplesView::Planar(plane_views(planes@)).covers(shape),
                out@ == before + all.take(i * channels + c),
            decreases shape.channels - c,
        {
            let ghost k = i * channels + c;
            assert(plane_views(planes@)[c as int] == planes@[c as int]@);
            assert(plane_views(planes@)[c as int].len() >= shape.samples);
            proof {
                vstd::arithmetic::div_mod::lemma_fundamental_div_mod_converse(
                    k,
                    channels,
                    i as int,
                    c as int,
                );
                assert(all[k] == planes@[c as int]@[i as int]);
            }
            out.push(planes[c][i]);
            c += 1;
            assert(out@ =~= before + all.take(k + 1));
        }
        i += 1;
    }
    assert(i * channels == shape.total());
    assert(all.take(shape.total()) =~= all);
}

/// Appends the samples of a packed frame.
fn append_packed(samples: &Vec<i16>, shape: FrameShape, out: &mut Vec<i16>)
    requires
        shape.wf(),
        samples@.len() >= shape.total(),
    ensures
        final(out)@ == old(out)@ + samples@.take(shape.total()),
{
    let ghost before = out@;
    let total: usize = shape.samples * shape.channels;
    let mut i: usize = 0;
    assert(out@ =~= before + samples@.take(0));
    while i < total
        invariant
            i <= total,
            total <= samples@.len(),
            out@ == before + samples@.take(i as int),
        decreases total - i,
    {
        out.push(samples[i]);
        i += 1;
        assert(out@ =~= before + samples@.take(i as int));
    }
}

/// The decoder: how far it has been opened, what it holds, and the buffer that
/// AUs are handed to the codec in. The codec reads `padding` bytes beyond the
/// end of what it is handed.
pub struct EldDecoder {
    step: OpenStep,
    handles: Handles,
    inbuf: Vec<u8>,
    padding: usize,
}

pub struct EldDecoderView {
    pub step: OpenStep,
    pub handles: Handles,
    pub inbuf: Seq<u8>,
    pub padding: nat,
}

impl View for EldDecoder {
    type V = EldDecoderView;

    closed spec fn view(&self) -> EldDecoderView {
        EldDecoderView {
            step: self.step,
            handles: self.handles,
            inbuf: self.inbuf@,
            padding: self.padding as nat,
        }
    }
}

impl EldDecoderView {
    pub open spec fn wf(self) -> bool {
        &&& self.inbuf.len() == ELD_INBUF_MAX + self.padding
        &&& self.step.fits(self.handles)
    }
}

/// `n` zero bytes.
pub open spec fn zeros(n: int) -> Seq<u8> {
    Seq::new(n as nat, |i: int| 0u8)
}

impl EldDecoder {
    /// A decoder that is still to be opened.
    pub fn new(padding: usize) -> (decoder: Self)
        requires
            ELD_INBUF_MAX + padding <= usize::MAX,
        ensures
            decoder@.wf(),
            decoder@.step == OpenStep::FindCodec,
            decoder@.handles == Handles::none(),
            decoder@.inbuf == zeros(ELD_INBUF_MAX + padding),
            decoder@.inbuf.len() == 512 + padding,
            forall|i: int| 0 <= i < 512 + padding ==> #[trigger] decoder@.inbuf[i] == 0,
            decoder@.padding == padding,
            decoder@.handles == (Handles { context: false, packet: false, frame: false }),
    {
        let inbuf: Vec<u8> = vec![0u8; ELD_INBUF_MAX + padding];
        assert(inbuf@ =~= zeros(ELD_INBUF_MAX + padding));
        EldDecoder {
            step: OpenStep::FindCodec,
            handles: Handles { context: false, packet: false, frame: false },
            inbuf,
            padding,
        }
    }

    /// What is to be done next to open the codec.
    pub fn open_step(&self) -> (step: OpenStep)
        ensures
            step == self@.step,
    {
        self.step
    }

    /// The extradata that the codec is opened with: the AudioSpecificConfig,
    /// with zeros behind it.
    pub fn extradata(&self) -> (data: Vec<u8>)
        ensures
            data@ == ELD_ASC@ + zeros(self@.padding as int),
            data@.len() == 4 + self@.padding,
            data@.take(4) == seq![0xF8u8, 0xE6, 0x30, 0x00],
            forall|i: int| 4 <= i < data@.len() ==> #[trigger] data@[i] == 0,
    {
        let mut data: Vec<u8> = Vec::new();
        data.push(ELD_ASC[0]);
        data.push(ELD_ASC[1]);
        data.push(ELD_ASC[2]);
        data.push(ELD_ASC[3]);
        let mut i: usize = 0;
        assert(data@ =~= ELD_ASC@ + zeros(0));
        while i < self.padding
            invariant
                i <= self.padding,
                data@ == ELD_ASC@ + zeros(i as int),
            decreases self.padding - i,
        {
            data.push(0);
            i += 1;
            assert(data@ =~= ELD_ASC@ + zeros(i as int));
        }
        assert(data@.take(4) =~= seq![0xF8u8, 0xE6, 0x30, 0x00]);
        data
    }

    /// What is set on the codec's context before the codec is opened: the size
    /// of the AudioSpecificConfig, the coding rate and the channels.
    pub fn setup(&self) -> (setup: CodecSetup)
        ensures
            setup.extradata_size == ELD_ASC@.len(),
            setup.sample_rate == ELD_CODING_RATE,
            setup.channels == ELD_CHANNELS,
            setup == (CodecSetup { extradata_size: 4, sample_rate: 48000, channels: 1 }),
    {
        CodecSetup {
            extradata_size: 4,
            sample_rate: ELD_CODING_RATE,
            channels: ELD_CHANNELS,
        }
    }

    /// Takes in whether the current step to open the codec succeeded.
    pub fn opening(&mut self, ok: bool)
        requires
            old(self)@.wf(),
        ensures
            final(self)@.wf(),
            final(self)@.handles == old(self)@.step.handles_after(ok, old(self)@.handles),
            final(self)@.step == old(self)@.step.next(ok, final(self)@.handles),
            final(self)@.inbuf == old(self)@.inbuf,
            final(self)@.padding == old(self)@.padding,
    {
        match self.step {
            OpenStep::FindCodec => {
                self.step = if ok {
                    OpenStep::AllocContext
                } else {
                    OpenStep::Closed
                };
            },
            OpenStep::AllocContext => {
                self.handles.context = ok;
                self.step = if ok {
                    OpenStep::AllocExtradata
                } else {
                    OpenStep::Closed
                };
            },
            OpenStep::AllocExtradata => {
                self.step = if ok {
                    OpenStep::OpenCodec
                } else {
                    OpenStep::Closed
                };
            },
            OpenStep::OpenCodec => {
                self.step = if ok {
                    OpenStep::AllocPacket
                } else {
                    OpenStep::Closed
                };
            },
            OpenStep::AllocPacket => {
                self.handles.packet = ok;
                self.step = OpenStep::AllocFrame;
            },
            OpenStep::AllocFrame => {
                self.handles.frame = ok;
                self.step = if self.handles.packet && ok {
                    OpenStep::Opened
                } else {
                    OpenStep::Closed
                };
            },
            OpenStep::Opened => {},
            OpenStep::Closed => {},
        }
    }

    /// Closes the decoder. Returns the handles to give back, in that order.
    pub fn free(&mut self) -> (release: Vec<Handle>)
        requires
            old(self)@.wf(),
        ensures
            release@ == old(self)@.handles.release_order(),
            release@ == (if old(self)@.handles.frame {
                seq![Handle::Frame]
            } else {
                seq![]
            }) + (if old(self)@.handles.packet {
                seq![Handle::Packet]
            } else {
                seq![]
            }) + (if old(self)@.handles.context {
                seq![Handle::Context]
            } else {
                seq![]
            }),
            final(self)@.handles == (Handles { context: false, packet: false, frame: false }),
            final(self)@.wf(),
            final(self)@.step == OpenStep::Closed,
            final(self)@.handles == Handles::none(),
            final(self)@.inbuf == old(self)@.inbuf,
            final(self)@.padding == old(self)@.padding,
    {
        let mut release: Vec<Handle> = Vec::new();
        proof {
            release_order_by_cases(self.handles);
        }
        if self.handles.frame {
            release.push(Handle::Frame);
        }
        if self.handles.packet {
            release.push(Handle::Packet);
        }
        if self.handles.context {
            release.push(Handle::Context);
        }
        assert(release@ =~= self.handles.release_order());
        self.handles = Handles { context: false, packet: false, frame: false };
        self.step = OpenStep::Closed;
        release
    }

    /// Begins to decode one AU: it is put into the input buffer, with zeros
    /// behind it. An AU that is empty or too long is a decode error.
    pub fn decode(&mut self, au: &[u8]) -> (step: DecodeStep)
        requires
            old(self)@.wf(),
            old(self)@.step == OpenStep::Opened,
        ensures
            final(self)@.wf(),
            final(self)@.step == old(self)@.step,
            final(self)@.handles == old(self)@.handles,
            final(self)@.padding == old(self)@.padding,
            step.wf(),
            is_admissible(au@.len() as int) ==> {
                &&& step == (DecodeStep::SendPacket { size: au@.len() as usize })
                &&& final(self)@.inbuf == au@ + zeros(old(self)@.padding as int)
                    + old(self)@.inbuf.skip((au@.len() + old(self)@.padding) as int)
            },
            !is_admissible(au@.len() as int) ==> {
                &&& step == DecodeStep::Done(None)
                &&& final(self)@.inbuf == old(self)@.inbuf
            },
            step == (if 0 < au@.len() <= 512 {
                DecodeStep::SendPacket { size: au@.len() as usize }
            } else {
                DecodeStep::Done(None)
            }),
            final(self)@.inbuf.len() == old(self)@.inbuf.len(),
            forall|i: int|
                0 <= i < final(self)@.inbuf.len() ==> #[trigger] final(self)@.inbuf[i] == (if !(0
                    < au@.len() <= 512) || i >= au@.len() + old(self)@.padding {
                    old(self)@.inbuf[i]
                } else if i < au@.len() {
                    au@[i]
                } else {
                    0
                }),
    {
        if au.is_empty() || au.len() > ELD_INBUF_MAX {
            return DecodeStep::Done(None);
        }
        let ghost before = self.inbuf@;
        assert(before.len() == self.inbuf.len());
        let len: usize = au.len();
        let mut i: usize = 0;
        assert(self.inbuf@ =~= au@.take(0) + before.skip(0));
        while i < len
            invariant
                i <= len,
                len == au@.len(),
                len <= ELD_INBUF_MAX,
                before.len() == ELD_INBUF_MAX + self.padding,
                self.step == old(self).step,
                self.handles == old(self).handles,
                self.padding == old(self).padding,
                self.inbuf@ == au@.take(i as int) + before.skip(i as int),
            decreases len - i,
        {
            self.inbuf[i] = au[i];
            i += 1;
            assert(self.inbuf@ =~= au@.take(i as int) + before.skip(i as int));
        }
        assert(au@.take(len as int) =~= au@);
        let mut j: usize = 0;
        assert(self.inbuf@ =~= au@ + zeros(0) + before.skip(len as int));
        while j < self.padding
            invariant
                j <= self.padding,
                len == au@.len(),
                len <= ELD_INBUF_MAX,
                before.len() == ELD_INBUF_MAX + self.padding,
                self.step == old(self).step,
                self.handles == old(self).handles,
                self.padding == old(self).padding,
                before.len() <= usize::MAX,
                self.inbuf@ == au@ + zeros(j as int) + before.skip(len + j),
            decreases self.padding - j,
        {
            self.inbuf[len + j] = 0;
            j += 1;
            assert(self.inbuf@ =~= au@ + zeros(j as int) + before.skip(len + j));
        }
        DecodeStep::SendPacket { size: len }
    }

    /// The buffer that AUs are handed to the codec in.
    pub fn inbuf(&self) -> (inbuf: &Vec<u8>)
        ensures
            inbuf@ == self@.inbuf,
    {
        &self.inbuf
    }
}

proof fn release_order_by_cases(handles: Handles)
    ensures
        handles.release_order() == (if handles.frame {
            seq![Handle::Frame]
        } else {
            Seq::empty()
        }) + (if handles.packet {
            seq![Handle::Packet]
        } else {
            Seq::empty()
        }) + (if handles.context {
            seq![Handle::Context]
        } else {
            Seq::empty()
        }),
{
    reveal_with_fuel(Seq::filter, 4);
    let all = seq![Handle::Frame, Handle::Packet, Handle::Context];
    assert(all.drop_last() =~= seq![Handle::Frame, Handle::Packet]);
    assert(all.drop_last().drop_last() =~= seq![Handle::Frame]);
    assert(all.drop_last().drop_last().drop_last() =~= Seq::<Handle>::empty());
    assert(handles.release_order() =~= (if handles.frame {
        seq![Handle::Frame]
    } else {
        Seq::empty()
    }) + (if handles.packet {
        seq![Handle::Packet]
    } else {
        Seq::empty()
    }) + (if handles.context {
        seq![Handle::Context]
    } else {
        Seq::empty()
    }));
}

/// What goes back when a decoder is closed is what it holds, each handle once,
/// and the context last. A decoder that was closed before holds nothing, so
/// closing it again gives nothing back.
pub proof fn closing_gives_back_what_is_held(handles: Handles)
    ensures
        forall|h: Handle| handles.release_order().contains(h) <==> handles.holds(h),
        handles.release_order().no_duplicates(),
        handles.context ==> handles.release_order().last() == Handle::Context,
        Handles::none().release_order() == Seq::<Handle>::empty(),
{
    release_order_by_cases(handles);
    release_order_by_cases(Handles::none());
    let order = handles.release_order();
    let packets: int = if handles.frame {
        1
    } else {
        0
    };
    let contexts: int = packets + if handles.packet {
        1int
    } else {
        0
    };
    assert forall|h: Handle| order.contains(h) <==> handles.holds(h) by {
        match h {
            Handle::Frame => {
                if handles.frame {
                    assert(order[0] == h);
                }
            },
            Handle::Packet => {
                if handles.packet {
                    assert(order[packets] == h);
                }
            },
            Handle::Context => {
                if handles.context {
                    assert(order[contexts] == h);
                }
            },
        }
    }
    assert(Handles::none().release_order() =~= Seq::<Handle>::empty());
}

/// How far the decoder is opened after some outcomes, and what it holds then.
pub open spec fn opened_by(outcomes: Seq<bool>) -> (OpenStep, Handles)
    decreases outcomes.len(),
{
    if outcomes.len() == 0 {
        (OpenStep::FindCodec, Handles::none())
    } else {
        let (step, before) = opened_by(outcomes.drop_last());
        let handles = step.handles_after(outcomes.last(), before);
        (step.next(outcomes.last(), handles), handles)
    }
}

/// Whether `handle` was asked for and granted in the course of some outcomes.
pub open spec fn was_granted(outcomes: Seq<bool>, handle: Handle) -> bool
    decreases outcomes.len(),
{
    outcomes.len() > 0 && {
        let asked = match opened_by(outcomes.drop_last()).0 {
            OpenStep::AllocContext => Some(Handle::Context),
            OpenStep::AllocPacket => Some(Handle::Packet),
            OpenStep::AllocFrame => Some(Handle::Frame),
            _ => None,
        };
        was_granted(outcomes.drop_last(), handle) || (asked == Some(handle) && outcomes.last())
    }
}

/// However far the opening comes, what the decoder holds is what it was
/// granted, so that a decoder that cannot be opened gives all of it back.
pub proof fn holds_what_was_granted(outcomes: Seq<bool>, handle: Handle)
    ensures
        opened_by(outcomes).0.fits(opened_by(outcomes).1),
        opened_by(outcomes).1.holds(handle) == was_granted(outcomes, handle),
    decreases outcomes.len(),
{
    if outcomes.len() > 0 {
        holds_what_was_granted(outcomes.drop_last(), handle);
    }
}

/// The decoder is open after six steps if each of them succeeded, and closed
/// if one did not.
pub proof fn opens_if_every_step_succeeds(outcomes: Seq<bool>)
    requires
        outcomes.len() == 6,
    ensures
        (forall|i: int| 0 <= i < 6 ==> outcomes[i]) ==> opened_by(outcomes).0 == OpenStep::Opened,
        !(forall|i: int| 0 <= i < 6 ==> outcomes[i]) ==> opened_by(outcomes).0
            == OpenStep::Closed,
{
    reveal_with_fuel(opened_by, 7);
    assert(outcomes.drop_last().last() == outcomes[4]);
    assert(outcomes.drop_last().drop_last().last() == outcomes[3]);
    assert(outcomes.drop_last().drop_last().drop_last().last() == outcomes[2]);
    assert(outcomes.drop_last().drop_last().drop_last().drop_last().last() == outcomes[1]);
    assert(outcomes.drop_last().drop_last().drop_last().drop_last().drop_last().last()
        == outcomes[0]);
    if outcomes[0] && outcomes[1] && outcomes[2] && outcomes[3] && outcomes[4] && outcomes[5] {
        assert forall|i: int| 0 <= i < 6 implies outcomes[i] by {
            assert(i == 0 || i == 1 || i == 2 || i == 3 || i == 4 || i == 5);
        }
    }
}

/// Sample `i` of channel `c` of a planar frame comes out behind all channels
/// of the samples before it and behind the channels before it.
pub proof fn planes_are_interleaved(planes: Seq<Seq<i16>>, shape: FrameShape, i: int, c: int)
    requires
        shape.wf(),
        0 <= i < shape.samples,
        0 <= c < shape.channels,
    ensures
        0 <= i * shape.channels + c < shape.total(),
        FrameSamplesView::Planar(planes).interleaved(shape)[i * shape.channels + c]
            == planes[c][i],
{
    let channels = shape.channels as int;
    let k = i * channels + c;
    assert(0 <= k < shape.total()) by (nonlinear_arith)
        requires
            0 <= i < shape.samples,
            0 <= c < channels,
            channels == shape.channels,
            k == i * channels + c,
            shape.total() == shape.samples * shape.channels,
    ;
    vstd::arithmetic::div_mod::lemma_fundamental_div_mod_converse(k, channels, i, c);
}

/// A decode error leaves the output as it was, and a decoded frame appends as
/// many samples as are reported, and at least one.
pub proof fn output_grows_by_what_is_reported(step: DecodeStep, event: DecodeEventView)
    requires
        step.wf(),
        step.accepts(event),
    ensures
        match step.next(event) {
            DecodeStep::Done(Some(n)) => n > 0 && step.appended(event).len() == n,
            _ => step.appended(event).len() == 0,
        },
{
    if let DecodeStep::ReadSamples(shape) = step {
        assert(shape.total() > 0) by (nonlinear_arith)
            requires
                shape.samples > 0,
                shape.channels > 0,
                shape.total() == shape.samples * shape.channels,
        ;
    }
}

/// An AU is decoded exactly if its length is admissible, the codec takes it
/// and gives a frame, and the frame has channels, samples and a format that is
/// understood. Whatever fails first, the outcome is the same decode error.
pub proof fn decodes_exactly_if_nothing_fails(
    len: int,
    sent: int,
    received: int,
    channels: int,
    samples: int,
    format: SampleFormat,
    data: FrameSamplesView,
)
    requires
        0 <= len <= usize::MAX,
        channels <= i32::MAX,
        samples <= i32::MAX,
        channels > 0 && samples > 0 ==> samples * channels <= usize::MAX,
    ensures
        ({
            let first = if is_admissible(len) {
                DecodeStep::SendPacket { size: len as usize }
            } else {
                DecodeStep::Done(None)
            };
            let outcome = first.next(DecodeEventView::Sent(sent)).next(
                DecodeEventView::Received(received),
            ).next(DecodeEventView::Header { channels, samples, format }).next(
                DecodeEventView::Samples(data),
            );
            if is_admissible(len) && sent >= 0 && received >= 0 && channels > 0 && samples > 0
                && format.planar() is Some {
                outcome == DecodeStep::Done(Some((samples * channels) as usize))
            } else {
                outcome == DecodeStep::Done(None)
            }
        }),
{
}

/// The stream and how the codec is opened for it: 480 samples at 64 kHz on one
/// channel, coded at 48 kHz.
pub proof fn stream_is_mono_at_64_khz()
    ensures
        ELD_SAMPLE_RATE == 64000,
        ELD_FRAME_SAMPLES == 480,
        ELD_CHANNELS == 1,
        ELD_CODING_RATE == 48000,
        ELD_INBUF_MAX == 512,
        ELD_ASC@ == seq![0xF8u8, 0xE6, 0x30, 0x00],
{
    assert(ELD_ASC@ =~= seq![0xF8u8, 0xE6, 0x30, 0x00]);
}

/// The codec is found, the context allocated, its extradata allocated and the
/// codec opened, in that order, and the first of these that fails closes the
/// decoder for good. Then the packet and the frame are asked for, both in any
/// case, and the decoder is open exactly if both were granted, from then on.
/// What is held at any time is what was granted by then.
pub proof fn opening_goes_in_order(outcomes: Seq<bool>)
    ensures
        ({
            let n = outcomes.len();
            let (step, handles) = opened_by(outcomes);
            let ready = (n > 0 ==> outcomes[0]) && (n > 1 ==> outcomes[1]) && (n > 2
                ==> outcomes[2]) && (n > 3 ==> outcomes[3]);
            &&& !ready ==> step is Closed
            &&& ready && n == 0 ==> step is FindCodec
            &&& ready && n == 1 ==> step is AllocContext
            &&& ready && n == 2 ==> step is AllocExtradata
            &&& ready && n == 3 ==> step is OpenCodec
            &&& ready && n == 4 ==> step is AllocPacket
            &&& ready && n == 5 ==> step is AllocFrame
            &&& ready && n >= 6 && outcomes[4] && outcomes[5] ==> step is Opened
            &&& ready && n >= 6 && !(outcomes[4] && outcomes[5]) ==> step is Closed
            &&& handles.context == (n >= 2 && outcomes[0] && outcomes[1])
            &&& handles.packet == (n >= 5 && ready && outcomes[4])
            &&& handles.frame == (n >= 6 && ready && outcomes[5])
        }),
    decreases outcomes.len(),
{
    if outcomes.len() > 0 {
        opening_goes_in_order(outcomes.drop_last());
    }
}

/// One step of opening, whatever is held: where it leads on success and on
/// failure, and that only the three allocations change what is held, each only
/// its own handle.
pub proof fn opening_step_by_step(ok: bool, handles: Handles)
    ensures
        OpenStep::FindCodec.next(ok, handles) == (if ok {
            OpenStep::AllocContext
        } else {
            OpenStep::Closed
        }),
        OpenStep::AllocContext.next(ok, handles) == (if ok {
            OpenStep::AllocExtradata
        } else {
            OpenStep::Closed
        }),
        OpenStep::AllocExtradata.next(ok, handles) == (if ok {
            OpenStep::OpenCodec
        } else {
            OpenStep::Closed
        }),
        OpenStep::OpenCodec.next(ok, handles) == (if ok {
            OpenStep::AllocPacket
        } else {
            OpenStep::Closed
        }),
        OpenStep::AllocPacket.next(ok, handles) is AllocFrame,
        OpenStep::AllocFrame.next(ok, handles) is Opened <==> handles.packet && handles.frame,
        OpenStep::AllocFrame.next(ok, handles) is Closed <==> !(handles.packet && handles.frame),
        OpenStep::Opened.next(ok, handles) is Opened,
        OpenStep::Closed.next(ok, handles) is Closed,
        OpenStep::AllocContext.handles_after(ok, handles) == (Handles { context: ok, ..handles }),
        OpenStep::AllocPacket.handles_after(ok, handles) == (Handles { packet: ok, ..handles }),
        OpenStep::AllocFrame.handles_after(ok, handles) == (Handles { frame: ok, ..handles }),
        forall|step: OpenStep|
            !(step is AllocContext || step is AllocPacket || step is AllocFrame)
                ==> #[trigger] step.handles_after(ok, handles) == handles,
{
}

/// A frame is asked for only after the codec took the packet, and its header is
/// looked at only after a frame came: a negative return code is a decode error.
pub proof fn return_codes_decide(send: DecodeStep, status: int)
    requires
        send is SendPacket,
    ensures
        send.accepts(DecodeEventView::Sent(status)),
        status < 0 ==> send.next(DecodeEventView::Sent(status)) == DecodeStep::Done(None),
        status >= 0 ==> send.next(DecodeEventView::Sent(status)) == DecodeStep::ReceiveFrame,
        DecodeStep::ReceiveFrame.accepts(DecodeEventView::Received(status)),
        status < 0 ==> DecodeStep::ReceiveFrame.next(DecodeEventView::Received(status))
            == DecodeStep::Done(None),
        status >= 0 ==> DecodeStep::ReceiveFrame.next(DecodeEventView::Received(status))
            == DecodeStep::ReadHeader,
{
}

/// The samples are read exactly if the frame has channels and samples and one of
/// the four formats, as many as it says and from planes exactly for the two
/// planar formats. Anything else is a decode error.
pub proof fn header_decides_what_is_read(channels: int, samples: int, format: SampleFormat)
    requires
        channels <= i32::MAX,
        samples <= i32::MAX,
        channels > 0 && samples > 0 ==> samples * channels <= usize::MAX,
    ensures
        ({
            let event = DecodeEventView::Header { channels, samples, format };
            let next = DecodeStep::ReadHeader.next(event);
            &&& DecodeStep::ReadHeader.accepts(event)
            &&& channels > 0 && samples > 0 && format != SampleFormat::Other ==> {
                &&& next matches DecodeStep::ReadSamples(shape)
                &&& shape.channels == channels
                &&& shape.samples == samples
                &&& shape.planar == (format == SampleFormat::FloatPlanar || format
                    == SampleFormat::S16Planar)
            }
            &&& !(channels > 0 && samples > 0 && format != SampleFormat::Other) ==> next
                == DecodeStep::Done(None)
        }),
{
}

/// Of a frame with planes, sample `i` of channel `c` comes out at the place
/// `i * channels + c`, for every sample and channel that the frame has, and
/// nothing else comes out. The planes may be longer than that.
pub proof fn planar_frame_comes_out_in_order(
    planes: Seq<Seq<i16>>,
    channels: usize,
    samples: usize,
)
    requires
        channels > 0,
        samples > 0,
        samples * channels <= usize::MAX,
        planes.len() >= channels,
        forall|c: int| 0 <= c < channels ==> (#[trigger] planes[c]).len() >= samples,
    ensures
        ({
            let step = DecodeStep::ReadSamples(FrameShape { planar: true, channels, samples });
            let event = DecodeEventView::Samples(FrameSamplesView::Planar(planes));
            &&& step.wf()
            &&& step.accepts(event)
            &&& step.next(event) == DecodeStep::Done(Some((samples * channels) as usize))
            &&& step.appended(event).len() == samples * channels
            &&& forall|i: int, c: int|
                0 <= i < samples && 0 <= c < channels ==> (#[trigger] planes[c][i])
                    == step.appended(event)[i * channels + c]
        }),
{
    let shape = FrameShape { planar: true, channels, samples };
    let step = DecodeStep::ReadSamples(shape);
    let event = DecodeEventView::Samples(FrameSamplesView::Planar(planes));
    assert forall|i: int, c: int| 0 <= i < samples && 0 <= c < channels implies (
    #[trigger] planes[c][i]) == step.appended(event)[i * channels + c] by {
        planes_are_interleaved(planes, shape, i, c);
    }
}

/// A mono frame comes out exactly as its one plane has it.
pub proof fn mono_frame_comes_out_as_it_is(plane: Seq<i16>)
    requires
        0 < plane.len() <= usize::MAX,
    ensures
        ({
            let step = DecodeStep::ReadSamples(
                FrameShape { planar: true, channels: 1, samples: plane.len() as usize },
            );
            let event = DecodeEventView::Samples(FrameSamplesView::Planar(seq![plane]));
            step.accepts(event) && step.appended(event) == plane
        }),
{
    let shape = FrameShape { planar: true, channels: 1, samples: plane.len() as usize };
    let step = DecodeStep::ReadSamples(shape);
    let event = DecodeEventView::Samples(FrameSamplesView::Planar(seq![plane]));
    assert forall|i: int| 0 <= i < plane.len() implies step.appended(event)[i] == plane[i] by {
        planes_are_interleaved(seq![plane], shape, i, 0);
    }
    assert(step.appended(event) =~= plane);
}

/// Of a frame that is interleaved already, as many samples come out as it has
/// on all channels together, as they are and in order.
pub proof fn packed_frame_comes_out_in_order(all: Seq<i16>, channels: usize, samples: usize)
    requires
        channels > 0,
        samples > 0,
        samples * channels <= usize::MAX,
        all.len() >= samples * channels,
    ensures
        ({
            let step = DecodeStep::ReadSamples(FrameShape { planar: false, channels, samples });
            let event = DecodeEventView::Samples(FrameSamplesView::Packed(all));
            &&& step.wf()
            &&& step.accepts(event)
            &&& step.next(event) == DecodeStep::Done(Some((samples * channels) as usize))
            &&& step.appended(event) == all.subrange(0, samples * channels)
        }),
{
    let step = DecodeStep::ReadSamples(FrameShape { planar: false, channels, samples });
    let event = DecodeEventView::Samples(FrameSamplesView::Packed(all));
    assert(step.appended(event) =~= all.subrange(0, samples * channels));
}

/// Nothing but the samples of a frame is ever appended.
pub proof fn only_samples_are_appended(step: DecodeStep, event: DecodeEventView)
    requires
        !(step is ReadSamples && event is Samples),
    ensures
        step.appended(event) == Seq::<i16>::empty(),
{
}

/// What a step is told is what became of it: no number and no sample is lost on
/// the way into the model.
pub proof fn decode_events_are_seen_whole(event: DecodeEvent)
    ensures
        event matches DecodeEvent::Sent(status) ==> event@ == DecodeEventView::Sent(status as int),
        event matches DecodeEvent::Received(status) ==> event@ == DecodeEventView::Received(
            status as int,
        ),
        event matches DecodeEvent::Header { channels, samples, format } ==> event@
            == (DecodeEventView::Header {
            channels: channels as int,
            samples: samples as int,
            format,
        }),
        event matches DecodeEvent::Samples(FrameSamples::Planar(planes)) ==> {
            &&& event@ matches DecodeEventView::Samples(FrameSamplesView::Planar(seen))
            &&& seen.len() == planes@.len()
            &&& forall|c: int| 0 <= c < seen.len() ==> #[trigger] seen[c] == planes@[c]@
        },
        event matches DecodeEvent::Samples(FrameSamples::Packed(samples)) ==> event@
            == DecodeEventView::Samples(FrameSamplesView::Packed(samples@)),
{
}

} // verus!
