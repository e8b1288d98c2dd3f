use bytes::Bytes;
use compositor::payloader::{
    AudioCodec, EncodedChunk, EncodedChunkKind, PayloadingError, Payloader, VideoCodec,
    AUDIO_PAYLOAD_TYPE, VIDEO_PAYLOAD_TYPE,
};

fn audio_chunk(data: Vec<u8>, pts_nanos: u64) -> EncodedChunk {
    EncodedChunk {
        data: Bytes::from(data),
        pts_nanos,
        kind: EncodedChunkKind::Audio(AudioCodec::Opus),
    }
}

fn video_chunk(data: Vec<u8>, pts_nanos: u64) -> EncodedChunk {
    EncodedChunk {
        data: Bytes::from(data),
        pts_nanos,
        kind: EncodedChunkKind::Video(VideoCodec::H264),
    }
}

#[test]
fn opus_chunk_becomes_one_packet_with_marker_and_clocked_timestamp() {
    let mut p = Payloader::new(None, Some(AudioCodec::Opus));
    let packets = p
        .payload(1200, audio_chunk(vec![1, 2, 3, 4], 1_000_000_000))
        .unwrap();
    assert_eq!(packets.len(), 1);
    let packet = &packets[0];
    assert_eq!(packet.header.version, 2);
    assert!(!packet.header.padding);
    assert!(!packet.header.extension);
    assert!(packet.header.marker);
    assert_eq!(packet.header.payload_type, AUDIO_PAYLOAD_TYPE);
    // one second on the 48 kHz Opus clock
    assert_eq!(packet.header.timestamp, 48_000);
    assert_eq!(packet.payload, Bytes::from(vec![1, 2, 3, 4]));
}

#[test]
fn sequence_numbers_advance_by_one_packet_per_frame() {
    let mut p = Payloader::new(None, Some(AudioCodec::Opus));
    let first = p.payload(1200, audio_chunk(vec![1], 0)).unwrap();
    let second = p.payload(1200, audio_chunk(vec![2], 20_000_000)).unwrap();
    assert_eq!(
        second[0].header.sequence_number,
        first[0].header.sequence_number.wrapping_add(1)
    );
    assert_eq!(first[0].header.ssrc, second[0].header.ssrc);
}

#[test]
fn h264_frame_fits_in_one_packet_under_a_large_mtu() {
    let mut p = Payloader::new(Some(VideoCodec::H264), None);
    // a single NAL unit, no Annex-B start code: stays in one packet
    let packets = p
        .payload(1200, video_chunk(vec![0x41, 0xAA, 0xBB, 0xCC], 1_000_000_000))
        .unwrap();
    assert_eq!(packets.len(), 1);
    assert!(packets[0].header.marker);
    assert_eq!(packets[0].header.payload_type, VIDEO_PAYLOAD_TYPE);
    // one second on the 90 kHz H264 clock
    assert_eq!(packets[0].header.timestamp, 90_000);
    assert_eq!(packets[0].payload, Bytes::from(vec![0x41, 0xAA, 0xBB, 0xCC]));
}

#[test]
fn h264_frame_fragments_under_a_small_mtu() {
    let mut p = Payloader::new(Some(VideoCodec::H264), None);
    let data: Vec<u8> = vec![0x41, 1, 2, 3, 4, 5, 6, 7, 8, 9];
    let packets = p.payload(4, video_chunk(data, 0)).unwrap();
    assert!(packets.len() > 1);
    for (i, packet) in packets.iter().enumerate() {
        assert!(packet.payload.len() <= 4);
        assert_eq!(packet.header.marker, i == packets.len() - 1);
        assert_eq!(
            packet.header.sequence_number,
            packets[0].header.sequence_number.wrapping_add(i as u16)
        );
    }
}

#[test]
fn video_chunk_without_video_payloader_is_refused() {
    let mut p = Payloader::new(None, Some(AudioCodec::Opus));
    let r = p.payload(1200, video_chunk(vec![1], 0));
    assert!(matches!(r, Err(PayloadingError::NoVideoPayloader)));
}

#[test]
fn audio_chunk_without_audio_payloader_is_refused() {
    let mut p = Payloader::new(Some(VideoCodec::H264), None);
    let r = p.payload(1200, audio_chunk(vec![1], 0));
    assert!(matches!(r, Err(PayloadingError::NoAudioPayloader)));
}

#[test]
fn audio_chunk_with_the_wrong_codec_is_refused() {
    let mut p = Payloader::new(None, Some(AudioCodec::Opus));
    let r = p.payload(
        1200,
        EncodedChunk {
            data: Bytes::from(vec![1]),
            pts_nanos: 0,
            kind: EncodedChunkKind::Audio(AudioCodec::Aac),
        },
    );
    assert!(matches!(
        r,
        Err(PayloadingError::NonMatchingAudioCodecs {
            chunk_codec: AudioCodec::Aac,
            payloader_codec: AudioCodec::Opus,
        })
    ));
}

#[test]
fn empty_opus_frame_produces_no_packets() {
    let mut p = Payloader::new(None, Some(AudioCodec::Opus));
    let packets = p.payload(1200, audio_chunk(vec![], 0)).unwrap();
    assert!(packets.is_empty());
}
