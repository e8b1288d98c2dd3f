//! RTP payloading of encoded media chunks for the downstream transport stage.
//!
//! A [`Payloader`] routes each encoded chunk to the payloader configured for
//! its codec, fragments it through the rtp crate's codec payloaders and
//! frames every fragment into one RTP packet: version 2, the stream's fixed
//! payload type and ssrc, consecutive (wrapping) sequence numbers, a clock
//! rate dependent timestamp and the marker bit on the last packet of the
//! frame.

use vstd::prelude::*;

verus! {

/// RTP payload type for the video stream.
pub const VIDEO_PAYLOAD_TYPE: u8 = 96;

/// RTP payload type for the audio stream.
pub const AUDIO_PAYLOAD_TYPE: u8 = 97;

/// RTP clock rate of an H264 video stream, in ticks per second.
pub const H264_CLOCK_RATE: u32 = 90000;

/// RTP clock rate of an Opus audio stream, in ticks per second.
pub const OPUS_CLOCK_RATE: u32 = 48000;

/// bytes::Bytes, the buffer type the encoder and the rtp crate exchange,
/// carried through opaquely.
#[verifier::external_type_specification]
#[verifier::external_body]
pub struct ExBytes(bytes::Bytes);

/// rtp::Error, the rtp crate's own error type, carried through opaquely.
#[verifier::external_type_specification]
#[verifier::external_body]
pub struct ExRtpError(rtp::Error);

/// rtp::packet::Packet, the assembled RTP packet handed to the transport.
#[verifier::external_type_specification]
#[verifier::external_body]
pub struct ExRtpPacket(rtp::packet::Packet);

/// rtp::codecs::h264::H264Payloader, the stateful H264 fragmenter.
#[verifier::external_type_specification]
#[verifier::external_body]
pub struct ExH264Payloader(rtp::codecs::h264::H264Payloader);

/// rtp::codecs::opus::OpusPayloader, the stateless Opus payloader.
#[verifier::external_type_specification]
#[verifier::external_body]
pub struct ExOpusPayloader(rtp::codecs::opus::OpusPayloader);

/// A video codec this pipeline can emit.
#[derive(Clone, Copy, PartialEq, Eq, Structural, Debug)]
pub enum VideoCodec {
    H264,
}

/// An audio codec this pipeline can emit.
#[derive(Clone, Copy, PartialEq, Eq, Structural, Debug)]
pub enum AudioCodec {
    Opus,
    Aac,
}

/// Which stream an encoded chunk belongs to, with its codec.
#[derive(Clone, Copy, PartialEq, Eq, Structural, Debug)]
pub enum EncodedChunkKind {
    Video(VideoCodec),
    Audio(AudioCodec),
}

/// One encoded media chunk handed down by the encoder: its bytes, its
/// presentation timestamp in nanoseconds and its stream kind.
#[derive(Debug)]
pub struct EncodedChunk {
    pub data: bytes::Bytes,
    pub pts_nanos: u64,
    pub kind: EncodedChunkKind,
}

/// Per-stream RTP state: the stream's random ssrc and the sequence number of
/// the next packet.
#[derive(Clone, Copy, PartialEq, Eq, Structural, Debug)]
pub struct RtpStreamContext {
    pub ssrc: u32,
    pub next_sequence_number: u16,
}

/// Relies on rand::random: a fresh random value seeding the stream's ssrc.
#[verifier::external_body]
fn random_u32() -> u32 {
    rand::random::<u32>()
}

/// Relies on rand::random: a fresh random initial sequence number.
#[verifier::external_body]
fn random_u16() -> u16 {
    rand::random::<u16>()
}

impl RtpStreamContext {
    /// A fresh stream context. The ssrc and the initial sequence number are
    /// random, as RTP asks; nothing is promised of their values.
    pub fn new() -> Self {
        let ssrc = random_u32();
        let next_sequence_number = random_u16();

        RtpStreamContext { ssrc, next_sequence_number }
    }
}

/// Why a chunk could not be payloaded.
#[derive(Debug)]
pub enum PayloadingError {
    /// A video chunk was handed to a payloader configured without video.
    NoVideoPayloader,
    /// An audio chunk was handed to a payloader configured without audio.
    NoAudioPayloader,
    /// A video chunk's codec differs from the configured video codec.
    NonMatchingVideoCodecs { chunk_codec: VideoCodec, payloader_codec: VideoCodec },
    /// An audio chunk's codec differs from the configured audio codec.
    NonMatchingAudioCodecs { chunk_codec: AudioCodec, payloader_codec: AudioCodec },
    /// The rtp crate refused the chunk.
    RtpLibError(rtp::Error),
}

/// The header fields this engine sets on an outgoing RTP packet. csrc and
/// extensions are never used and stay at their defaults.
#[derive(Clone, Copy, PartialEq, Eq, Structural, Debug)]
pub struct PacketHeader {
    pub version: u8,
    pub padding: bool,
    pub extension: bool,
    pub marker: bool,
    pub payload_type: u8,
    pub sequence_number: u16,
    pub timestamp: u32,
    pub ssrc: u32,
}

/// `x` reduced into the 16-bit sequence-number space.
pub open spec fn wrap16(x: int) -> int {
    x % 0x10000
}

/// The header of the `i`-th of `n` packets built from one frame under
/// `context`: fixed version 2, no padding or extension, the marker bit on
/// the frame's last packet, and sequence numbers counted (wrapping) from the
/// context's next one.
pub open spec fn spec_header(
    context: RtpStreamContext,
    n: int,
    payload_type: u8,
    timestamp: u32,
    i: int,
) -> PacketHeader {
    PacketHeader {
        version: 2,
        padding: false,
        extension: false,
        marker: i == n - 1,
        payload_type,
        sequence_number: wrap16(context.next_sequence_number + i) as u16,
        timestamp,
        ssrc: context.ssrc,
    }
}

/// Build the headers of the `n` packets that carry one frame, advancing the
/// stream's sequence number by `n` (wrapping).
pub fn build_headers(
    context: &mut RtpStreamContext,
    n: usize,
    payload_type: u8,
    timestamp: u32,
) -> (r: Vec<PacketHeader>)
    ensures
        r@.len() == n,
        forall|i: int| 0 <= i < n ==> r@[i] == spec_header(
            *old(context),
            n as int,
            payload_type,
            timestamp,
            i,
        ),
        final(context).ssrc == old(context).ssrc,
        final(context).next_sequence_number == wrap16(
            old(context).next_sequence_number + n,
        ) as u16,
{
    let mut headers: Vec<PacketHeader> = Vec::new();
    let mut i: usize = 0;
    while i < n
        invariant
            0 <= i <= n,
            headers@.len() == i,
            forall|j: int| 0 <= j < i ==> headers@[j] == spec_header(
                *old(context),
                n as int,
                payload_type,
                timestamp,
                j,
            ),
            context.ssrc == old(context).ssrc,
            context.next_sequence_number == wrap16(
                old(context).next_sequence_number + i,
            ) as u16,
        decreases n - i,
    {
        headers.push(
            PacketHeader {
                version: 2,
                padding: false,
                extension: false,
                marker: i == n - 1,
                payload_type,
                sequence_number: context.next_sequence_number,
                timestamp,
                ssrc: context.ssrc,
            },
        );
        context.next_sequence_number = context.next_sequence_number.wrapping_add(1);
        i = i + 1;
    }
    headers
}

/// The RTP timestamp of a frame presented `pts_nanos` nanoseconds into the
/// stream, on a clock of `clock_rate` ticks per second, truncated into the
/// 32-bit timestamp space.
pub open spec fn spec_rtp_timestamp(pts_nanos: u64, clock_rate: u32) -> u32 {
    (((pts_nanos * clock_rate) / 1_000_000_000) % 0x1_0000_0000) as u32
}

/// Executable twin of [`spec_rtp_timestamp`].
pub fn rtp_timestamp(pts_nanos: u64, clock_rate: u32) -> (r: u32)
    ensures
        r == spec_rtp_timestamp(pts_nanos, clock_rate),
{
    proof {
        assert((pts_nanos as int) * (clock_rate as int) <= 0xFFFF_FFFF_FFFF_FFFF * 0xFFFF_FFFF)
            by (nonlinear_arith)
            requires
                pts_nanos <= 0xFFFF_FFFF_FFFF_FFFF,
                clock_rate <= 0xFFFF_FFFF,
        ;
    }
    let ticks: u128 = (pts_nanos as u128) * (clock_rate as u128) / 1_000_000_000;
    (ticks % 0x1_0000_0000) as u32
}

/// Relies on rtp::packet::Packet and rtp::header::Header being plain data:
/// builds one RTP packet carrying `payload` under the given header fields,
/// with no csrc list and no extensions.
#[verifier::external_body]
fn make_packet(header: &PacketHeader, payload: bytes::Bytes) -> rtp::packet::Packet {
    rtp::packet::Packet {
        header: rtp::header::Header {
            version: header.version,
            padding: header.padding,
            extension: header.extension,
            marker: header.marker,
            payload_type: header.payload_type,
            sequence_number: header.sequence_number,
            timestamp: header.timestamp,
            ssrc: header.ssrc,
            ..Default::default()
        },
        payload,
    }
}

/// Frame `payloads` — the fragments of one encoded frame, in order — into
/// RTP packets: the `i`-th fragment under the `i`-th header of
/// [`spec_header`], advancing the stream's sequence number by the number of
/// fragments.
pub fn packetize(
    context: &mut RtpStreamContext,
    payloads: Vec<bytes::Bytes>,
    payload_type: u8,
    timestamp: u32,
) -> (r: Vec<rtp::packet::Packet>)
    ensures
        r@.len() == payloads@.len(),
        final(context).ssrc == old(context).ssrc,
        final(context).next_sequence_number == wrap16(
            old(context).next_sequence_number + payloads@.len(),
        ) as u16,
{
    let n = payloads.len();
    let headers = build_headers(context, n, payload_type, timestamp);
    let mut packets: Vec<rtp::packet::Packet> = Vec::new();
    let mut rest = payloads;
    let mut i: usize = 0;
    while i < n
        invariant
            0 <= i <= n,
            packets@.len() == i,
            rest@.len() == n - i,
            headers@.len() == n,
        decreases n - i,
    {
        let payload = rest.remove(0);
        packets.push(make_packet(&headers[i], payload));
        i = i + 1;
    }
    packets
}

/// Relies on rtp's H264 payloader (rtp::codecs::h264::H264Payloader):
/// fragments an Annex-B H264 frame into RTP payloads of at most `mtu` bytes,
/// folding SPS/PPS units into a STAP-A aggregate; its source returns Ok on
/// every path.
#[verifier::external_body]
fn h264_payload(
    payloader: &mut rtp::codecs::h264::H264Payloader,
    mtu: usize,
    data: &bytes::Bytes,
) -> (r: Result<Vec<bytes::Bytes>, rtp::Error>)
    ensures
        r is Ok,
{
    rtp::packetizer::Payloader::payload(payloader, mtu, data)
}

/// Relies on rtp's Opus payloader (rtp::codecs::opus::OpusPayloader): hands
/// the frame back as a single payload, or none when the frame is empty or
/// `mtu` is zero; its source returns Ok on every path.
#[verifier::external_body]
fn opus_payload(
    payloader: &mut rtp::codecs::opus::OpusPayloader,
    mtu: usize,
    data: &bytes::Bytes,
) -> (r: Result<Vec<bytes::Bytes>, rtp::Error>)
    ensures
        r is Ok,
        r matches Ok(v) ==> v@.len() <= 1,
{
    rtp::packetizer::Payloader::payload(payloader, mtu, data)
}

/// Relies on H264Payloader's Default impl: a payloader with no SPS/PPS seen
/// yet.
#[verifier::external_body]
fn new_h264_payloader() -> rtp::codecs::h264::H264Payloader {
    rtp::codecs::h264::H264Payloader::default()
}

/// Relies on OpusPayloader being a stateless unit struct.
#[verifier::external_body]
fn new_opus_payloader() -> rtp::codecs::opus::OpusPayloader {
    rtp::codecs::opus::OpusPayloader
}

/// The payloader of one video stream, with its RTP state.
pub enum VideoPayloader {
    H264 { payloader: rtp::codecs::h264::H264Payloader, context: RtpStreamContext },
}

/// The payloader of one audio stream, with its RTP state.
pub enum AudioPayloader {
    Opus { payloader: rtp::codecs::opus::OpusPayloader, context: RtpStreamContext },
}

/// The codec a video payloader was configured for.
pub open spec fn spec_video_codec(p: VideoPayloader) -> VideoCodec {
    match p {
        VideoPayloader::H264 { .. } => VideoCodec::H264,
    }
}

/// The codec an audio payloader was configured for.
pub open spec fn spec_audio_codec(p: AudioPayloader) -> AudioCodec {
    match p {
        AudioPayloader::Opus { .. } => AudioCodec::Opus,
    }
}

impl VideoPayloader {
    /// A payloader for `codec` with a fresh stream context.
    pub fn new(codec: VideoCodec) -> (r: Self)
        ensures
            spec_video_codec(r) == codec,
    {
        match codec {
            VideoCodec::H264 => Self::H264 {
                payloader: new_h264_payloader(),
                context: RtpStreamContext::new(),
            },
        }
    }

    /// The configured codec.
    pub fn codec(&self) -> (r: VideoCodec)
        ensures
            r == spec_video_codec(*self),
    {
        match self {
            VideoPayloader::H264 { .. } => VideoCodec::H264,
        }
    }

    /// Fragment one video chunk and frame the fragments into RTP packets.
    pub fn payload(&mut self, mtu: usize, chunk: EncodedChunk) -> (r: Result<
        Vec<rtp::packet::Packet>,
        PayloadingError,
    >)
        ensures
            r is Ok,
            spec_video_codec(*final(self)) == spec_video_codec(*old(self)),
    {
        match self {
            VideoPayloader::H264 { payloader, context } => {
                let payloads = match h264_payload(payloader, mtu, &chunk.data) {
                    Ok(payloads) => payloads,
                    Err(e) => {
                        return Err(PayloadingError::RtpLibError(e));
                    },
                };
                let timestamp = rtp_timestamp(chunk.pts_nanos, H264_CLOCK_RATE);
                Ok(packetize(context, payloads, VIDEO_PAYLOAD_TYPE, timestamp))
            },
        }
    }
}

impl AudioPayloader {
    /// A payloader for `codec` with a fresh stream context. Aac output is
    /// not supported.
    pub fn new(codec: AudioCodec) -> (r: Self)
        requires
            codec != AudioCodec::Aac,
        ensures
            spec_audio_codec(r) == codec,
    {
        match codec {
            AudioCodec::Opus => Self::Opus {
                payloader: new_opus_payloader(),
                context: RtpStreamContext::new(),
            },
            AudioCodec::Aac => {
                proof {
                    assert(false);
                }
                Self::Opus { payloader: new_opus_payloader(), context: RtpStreamContext::new() }
            },
        }
    }

    /// The configured codec.
    pub fn codec(&self) -> (r: AudioCodec)
        ensures
            r == spec_audio_codec(*self),
    {
        match self {
            AudioPayloader::Opus { .. } => AudioCodec::Opus,
        }
    }

    /// Frame one audio chunk into RTP packets: Opus frames are never
    /// fragmented, so at most one packet comes back.
    pub fn payload(&mut self, mtu: usize, chunk: EncodedChunk) -> (r: Result<
        Vec<rtp::packet::Packet>,
        PayloadingError,
    >)
        ensures
            r matches Ok(v) ==> v@.len() <= 1,
            r is Ok,
            spec_audio_codec(*final(self)) == spec_audio_codec(*old(self)),
    {
        match self {
            AudioPayloader::Opus { payloader, context } => {
                let payloads = match opus_payload(payloader, mtu, &chunk.data) {
                    Ok(payloads) => payloads,
                    Err(e) => {
                        return Err(PayloadingError::RtpLibError(e));
                    },
                };
                let timestamp = rtp_timestamp(chunk.pts_nanos, OPUS_CLOCK_RATE);
                Ok(packetize(context, payloads, AUDIO_PAYLOAD_TYPE, timestamp))
            },
        }
    }
}

/// Routes each encoded chunk to the payloader configured for its stream and
/// codec.
pub struct Payloader {
    pub video: Option<VideoPayloader>,
    pub audio: Option<AudioPayloader>,
}

impl Payloader {
    /// A payloader for the configured codecs. Aac audio output is not
    /// supported.
    pub fn new(video: Option<VideoCodec>, audio: Option<AudioCodec>) -> (r: Self)
        requires
            audio != Some(AudioCodec::Aac),
        ensures
            r.video is Some <==> video is Some,
            r.audio is Some <==> audio is Some,
            video matches Some(c) ==> spec_video_codec(r.video->0) == c,
            audio matches Some(c) ==> spec_audio_codec(r.audio->0) == c,
    {
        let video_payloader = match video {
            Some(codec) => Some(VideoPayloader::new(codec)),
            None => None,
        };
        let audio_payloader = match audio {
            Some(codec) => Some(AudioPayloader::new(codec)),
            None => None,
        };
        Self { video: video_payloader, audio: audio_payloader }
    }

    /// Payload one chunk. Fails with the matching error when the chunk's
    /// stream is not configured or its codec differs from the configured
    /// one; otherwise the chunk is fragmented and framed under this stream's
    /// RTP state.
    pub fn payload(&mut self, mtu: usize, data: EncodedChunk) -> (r: Result<
        Vec<rtp::packet::Packet>,
        PayloadingError,
    >)
        ensures
            data.kind matches EncodedChunkKind::Video(chunk_codec) ==> {
                &&& old(self).video is None ==> r == Err::<
                    Vec<rtp::packet::Packet>,
                    PayloadingError,
                >(PayloadingError::NoVideoPayloader)
                &&& old(self).video is Some && spec_video_codec(old(self).video->0) != chunk_codec
                    ==> r == Err::<Vec<rtp::packet::Packet>, PayloadingError>(
                    PayloadingError::NonMatchingVideoCodecs {
                        chunk_codec,
                        payloader_codec: spec_video_codec(old(self).video->0),
                    },
                )
                &&& old(self).video is Some && spec_video_codec(old(self).video->0) == chunk_codec
                    ==> r is Ok
            },
            data.kind matches EncodedChunkKind::Audio(chunk_codec) ==> {
                &&& old(self).audio is None ==> r == Err::<
                    Vec<rtp::packet::Packet>,
                    PayloadingError,
                >(PayloadingError::NoAudioPayloader)
                &&& old(self).audio is Some && spec_audio_codec(old(self).audio->0) != chunk_codec
                    ==> r == Err::<Vec<rtp::packet::Packet>, PayloadingError>(
                    PayloadingError::NonMatchingAudioCodecs {
                        chunk_codec,
                        payloader_codec: spec_audio_codec(old(self).audio->0),
                    },
                )
                &&& old(self).audio is Some && spec_audio_codec(old(self).audio->0) == chunk_codec
                    ==> r is Ok && r->Ok_0@.len() <= 1
            },
            final(self).video is Some <==> old(self).video is Some,
            final(self).audio is Some <==> old(self).audio is Some,
    {
        match data.kind {
            EncodedChunkKind::Video(chunk_codec) => {
                let video_payloader = match &mut self.video {
                    Some(video_payloader) => video_payloader,
                    None => {
                        return Err(PayloadingError::NoVideoPayloader);
                    },
                };

                if video_payloader.codec() != chunk_codec {
                    return Err(
                        PayloadingError::NonMatchingVideoCodecs {
                            chunk_codec,
                            payloader_codec: video_payloader.codec(),
                        },
                    );
                }

                video_payloader.payload(mtu, data)
            },
            EncodedChunkKind::Audio(chunk_codec) => {
                let audio_payloader = match &mut self.audio {
                    Some(audio_payloader) => audio_payloader,
                    None => {
                        return Err(PayloadingError::NoAudioPayloader);
                    },
                };

                if audio_payloader.codec() != chunk_codec {
                    return Err(
                        PayloadingError::NonMatchingAudioCodecs {
                            chunk_codec,
                            payloader_codec: audio_payloader.codec(),
                        },
                    );
                }

                audio_payloader.payload(mtu, data)
            },
        }
    }
}

} // verus!
