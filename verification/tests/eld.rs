use earbuds::audio::eld::{
    CodecSetup, DecodeEvent, DecodeStep, EldDecoder, FrameSamples, FrameShape, Handle, OpenStep, SampleFormat,
    ELD_ASC, ELD_CHANNELS, ELD_CODING_RATE, ELD_FRAME_SAMPLES, ELD_SAMPLE_RATE,
};

fn open(padding: usize) -> EldDecoder {
    let mut decoder = EldDecoder::new(padding);
    for _ in 0..6 {
        decoder.opening(true);
    }
    assert_eq!(decoder.open_step(), OpenStep::Opened);
    decoder
}

fn header(channels: i32, samples: i32, format: SampleFormat) -> DecodeEvent {
    DecodeEvent::Header { channels, samples, format }
}

#[test]
fn stream_is_mono_at_64_khz() {
    assert_eq!(ELD_SAMPLE_RATE, 64000);
    assert_eq!(ELD_FRAME_SAMPLES, 480);
    assert_eq!(ELD_CHANNELS, 1);
    assert_eq!(ELD_CODING_RATE, 48000);
    // AOT 39 (escape 31, then 7), sampling index 3, one channel, 480-sample frames.
    let bits = u32::from_be_bytes(ELD_ASC);
    assert_eq!(bits >> 27, 31);
    assert_eq!(32 + ((bits >> 21) & 0x3F), 39);
    assert_eq!((bits >> 17) & 0xF, 3);
    assert_eq!((bits >> 13) & 0xF, ELD_CHANNELS as u32);
    assert_eq!((bits >> 12) & 1, 1);
}

#[test]
fn opening_goes_step_by_step() {
    let mut decoder = EldDecoder::new(64);
    let steps = [
        OpenStep::FindCodec,
        OpenStep::AllocContext,
        OpenStep::AllocExtradata,
        OpenStep::OpenCodec,
        OpenStep::AllocPacket,
        OpenStep::AllocFrame,
    ];
    for step in steps {
        assert_eq!(decoder.open_step(), step);
        decoder.opening(true);
    }
    assert_eq!(decoder.open_step(), OpenStep::Opened);
    assert_eq!(decoder.free(), vec![Handle::Frame, Handle::Packet, Handle::Context]);
    assert_eq!(decoder.open_step(), OpenStep::Closed);
    assert_eq!(decoder.free(), vec![]);
}

#[test]
fn failed_opening_gives_back_what_it_took() {
    for failing in 0..4usize {
        let mut decoder = EldDecoder::new(64);
        for i in 0..=failing {
            decoder.opening(i != failing);
        }
        assert_eq!(decoder.open_step(), OpenStep::Closed);
        let taken = if failing < 2 { vec![] } else { vec![Handle::Context] };
        assert_eq!(decoder.free(), taken);
    }
}

#[test]
fn frame_is_asked_for_even_without_packet() {
    let mut decoder = EldDecoder::new(64);
    for ok in [true, true, true, true, false] {
        decoder.opening(ok);
    }
    assert_eq!(decoder.open_step(), OpenStep::AllocFrame);
    decoder.opening(true);
    assert_eq!(decoder.open_step(), OpenStep::Closed);
    assert_eq!(decoder.free(), vec![Handle::Frame, Handle::Context]);
}

#[test]
fn opening_without_frame_gives_the_packet_back() {
    let mut decoder = EldDecoder::new(64);
    for ok in [true, true, true, true, true, false] {
        decoder.opening(ok);
    }
    assert_eq!(decoder.open_step(), OpenStep::Closed);
    assert_eq!(decoder.free(), vec![Handle::Packet, Handle::Context]);
}

#[test]
fn extradata_is_the_config_with_padding() {
    let decoder = EldDecoder::new(3);
    assert_eq!(decoder.extradata(), vec![0xF8, 0xE6, 0x30, 0x00, 0, 0, 0]);
}

#[test]
fn codec_is_opened_with_the_coding_rate_on_one_channel() {
    let setup = EldDecoder::new(64).setup();
    assert_eq!(setup, CodecSetup { extradata_size: 4, sample_rate: 48000, channels: 1 });
    assert_eq!(open(3).setup(), setup);
    assert_eq!(setup.extradata_size as usize, ELD_ASC.len());
}

#[test]
fn access_unit_is_padded_with_zeros() {
    let mut decoder = open(4);
    assert_eq!(decoder.inbuf().len(), 516);
    assert_eq!(decoder.decode(&[9; 10]), DecodeStep::SendPacket { size: 10 });
    assert_eq!(decoder.decode(&[1, 2]), DecodeStep::SendPacket { size: 2 });
    assert_eq!(&decoder.inbuf()[..12], &[1, 2, 0, 0, 0, 0, 9, 9, 9, 9, 0, 0]);
}

#[test]
fn access_units_have_to_fit() {
    let mut decoder = open(4);
    assert_eq!(decoder.decode(&[]), DecodeStep::Done(None));
    assert_eq!(decoder.decode(&[7; 513]), DecodeStep::Done(None));
    assert!(decoder.inbuf().iter().all(|&b| b == 0));
    assert_eq!(decoder.decode(&[7; 512]), DecodeStep::SendPacket { size: 512 });
    assert_eq!(decoder.inbuf()[511], 7);
    assert_eq!(&decoder.inbuf()[512..], &[0, 0, 0, 0]);
}

#[test]
fn planar_frame_is_interleaved() {
    let mut out = vec![5i16];
    let mut step = open(4).decode(&[1]);
    step = step.advance(DecodeEvent::Sent(0), &mut out);
    assert_eq!(step, DecodeStep::ReceiveFrame);
    step = step.advance(DecodeEvent::Received(0), &mut out);
    assert_eq!(step, DecodeStep::ReadHeader);
    step = step.advance(header(2, 3, SampleFormat::FloatPlanar), &mut out);
    assert_eq!(
        step,
        DecodeStep::ReadSamples(FrameShape { planar: true, channels: 2, samples: 3 })
    );
    let planes = FrameSamples::Planar(vec![vec![1, 2, 3, 99], vec![-1, -2, -3]]);
    step = step.advance(DecodeEvent::Samples(planes), &mut out);
    assert_eq!(step, DecodeStep::Done(Some(6)));
    assert_eq!(out, vec![5, 1, -1, 2, -2, 3, -3]);
}

#[test]
fn packed_frame_is_taken_as_it_is() {
    for format in [SampleFormat::Float, SampleFormat::S16] {
        let mut out = vec![5i16];
        let step = DecodeStep::ReadHeader.advance(header(2, 2, format), &mut out);
        assert_eq!(
            step,
            DecodeStep::ReadSamples(FrameShape { planar: false, channels: 2, samples: 2 })
        );
        let samples = FrameSamples::Packed(vec![1, 2, 3, 4, 99]);
        let step = step.advance(DecodeEvent::Samples(samples), &mut out);
        assert_eq!(step, DecodeStep::Done(Some(4)));
        assert_eq!(out, vec![5, 1, 2, 3, 4]);
    }
}

#[test]
fn decode_errors_append_nothing() {
    let mut out = vec![5i16];
    let error = DecodeStep::Done(None);
    let send = DecodeStep::SendPacket { size: 1 };
    assert_eq!(send.advance(DecodeEvent::Sent(-1), &mut out), error);
    assert_eq!(DecodeStep::ReceiveFrame.advance(DecodeEvent::Received(-11), &mut out), error);
    for (channels, samples) in [(0, 480), (-1, 480), (1, 0), (1, -1)] {
        let event = header(channels, samples, SampleFormat::S16Planar);
        assert_eq!(DecodeStep::ReadHeader.advance(event, &mut out), error);
    }
    let event = header(1, 480, SampleFormat::Other);
    assert_eq!(DecodeStep::ReadHeader.advance(event, &mut out), error);
    assert_eq!(out, vec![5]);
}
