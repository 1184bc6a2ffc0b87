use hermeneia::decoder::{
    next_step, packet_action, push_step, seek_effects, seek_time, DecoderStep, PacketAction,
    PacketEvent, PushOutcome,
};
use hermeneia::output::{fallback_rates, render_output, CallbackFlags, CallbackOutcome};
use hermeneia::ring::SampleRing;
use hermeneia::session::{
    ring_capacity_for, session_ring, stream_params, ProbeError, StreamParams, TrackInfo,
};

fn bits(values: &[f32]) -> Vec<u32> {
    values.iter().map(|v| v.to_bits()).collect()
}

fn flags(is_playing: bool, flush: bool, seek: bool) -> CallbackFlags {
    CallbackFlags {
        is_playing,
        flush_pending: flush,
        seek_pending: seek,
        current_frame: 0,
        channels: 2,
        total_frames: 0,
    }
}

#[test]
fn ring_round_trip_returns_items_in_order() {
    let mut ring = SampleRing::new(8);
    let items = bits(&[0.25, -0.5, 0.75, 1.0, -1.0]);
    assert_eq!(ring.push_slice(&items), 5);
    let mut out = vec![7u32; 5];
    assert_eq!(ring.pop_slice(&mut out), 5);
    assert_eq!(out, items);
    let mut more = vec![9u32; 3];
    assert_eq!(ring.pop_slice(&mut more), 0);
    assert_eq!(more, vec![9u32; 3]);
}

#[test]
fn ring_push_stops_at_capacity() {
    let mut ring = SampleRing::new(4);
    let items: Vec<u32> = (1..=6).collect();
    assert_eq!(ring.push_slice(&items), 4);
    let mut out = vec![0u32; 6];
    assert_eq!(ring.pop_slice(&mut out), 4);
    assert_eq!(out, vec![1, 2, 3, 4, 0, 0]);
}

#[test]
fn paused_callbacks_write_silence_and_keep_the_ring() {
    let (mut prod, mut cons) = SampleRing::new(16).split();
    let samples = bits(&[0.5, -0.5, 0.25, -0.25]);
    let mut written: usize = 0;
    assert_eq!(push_step(&mut prod, &samples, &mut written, false, false), PushOutcome::Complete);
    let mut consumed: u64 = 0;
    for _ in 0..5 {
        let mut out = vec![123u32; 4];
        let r = render_output(&flags(false, false, false), &mut cons, &mut out, &mut consumed);
        assert_eq!(r, CallbackOutcome::Paused);
        assert_eq!(out, vec![0u32; 4]);
        assert_eq!(cons.occupied_len(), 4);
    }
    assert_eq!(consumed, 0);
    let mut out = vec![1u32; 4];
    let r = render_output(&flags(true, false, false), &mut cons, &mut out, &mut consumed);
    assert_eq!(r, CallbackOutcome::Streamed { popped: 4, current_frame: Some(2) });
    assert_eq!(out, samples);
    assert_eq!(consumed, 4);
}

#[test]
fn underrun_is_filled_with_silence() {
    let (mut prod, mut cons) = SampleRing::new(16).split();
    let samples = bits(&[0.5, 0.5]);
    let mut written: usize = 0;
    push_step(&mut prod, &samples, &mut written, false, false);
    let mut consumed: u64 = 10;
    let mut out = vec![5u32; 6];
    let r = render_output(&flags(true, false, false), &mut cons, &mut out, &mut consumed);
    assert_eq!(r, CallbackOutcome::Streamed { popped: 2, current_frame: Some(6) });
    assert_eq!(out, vec![samples[0], samples[1], 0, 0, 0, 0]);
    let mut out = vec![5u32; 2];
    let r = render_output(&flags(true, false, false), &mut cons, &mut out, &mut consumed);
    assert_eq!(r, CallbackOutcome::Streamed { popped: 0, current_frame: None });
    assert_eq!(out, vec![0u32; 2]);
    assert_eq!(consumed, 12);
}

#[test]
fn position_never_passes_the_end_of_the_file() {
    let (mut prod, mut cons) = SampleRing::new(16).split();
    let samples = vec![1u32; 8];
    let mut written: usize = 0;
    push_step(&mut prod, &samples, &mut written, false, false);
    let f = CallbackFlags { total_frames: 3, ..flags(true, false, false) };
    let mut consumed: u64 = 0;
    let mut out = vec![0u32; 8];
    let r = render_output(&f, &mut cons, &mut out, &mut consumed);
    assert_eq!(r, CallbackOutcome::Streamed { popped: 8, current_frame: Some(3) });
}

#[test]
fn seek_pending_waits_without_consuming() {
    let (mut prod, mut cons) = SampleRing::new(16).split();
    let samples = vec![3u32; 6];
    let mut written: usize = 0;
    push_step(&mut prod, &samples, &mut written, false, false);
    let mut consumed: u64 = 40;
    let mut out = vec![8u32; 4];
    let r = render_output(&flags(true, false, true), &mut cons, &mut out, &mut consumed);
    assert_eq!(r, CallbackOutcome::AwaitingSeek);
    assert_eq!(out, vec![0u32; 4]);
    assert_eq!(cons.occupied_len(), 6);
    assert_eq!(consumed, 40);
}

#[test]
fn flush_drops_stale_audio_and_realigns_position() {
    // A 10 s stereo file at 44100 Hz, seeked to 8 s.
    let (mut prod, mut cons) = SampleRing::new(64).split();
    let stale = vec![11u32; 20];
    let mut written: usize = 0;
    push_step(&mut prod, &stale, &mut written, false, false);
    let target = seek_time(352_800, 44_100);
    assert_eq!((target.seconds, target.nanos), (8, 0));
    let effects = seek_effects(Some(352_800));
    assert!(effects.flush && effects.reset_decoder);
    let f = CallbackFlags {
        is_playing: true,
        flush_pending: effects.flush,
        seek_pending: false,
        current_frame: 352_800,
        channels: 2,
        total_frames: 441_000,
    };
    let mut consumed: u64 = 12_345;
    let mut out = vec![4u32; 8];
    let r = render_output(&f, &mut cons, &mut out, &mut consumed);
    assert_eq!(r, CallbackOutcome::Flushed { skipped: 20 });
    assert_eq!(out, vec![0u32; 8]);
    assert_eq!(consumed, 705_600);
    assert_eq!(cons.occupied_len(), 0);
    let fresh = bits(&[0.1, 0.2, 0.3, 0.4]);
    let mut written: usize = 0;
    push_step(&mut prod, &fresh, &mut written, false, false);
    let f = CallbackFlags { flush_pending: false, ..f };
    let mut out = vec![0u32; 4];
    let r = render_output(&f, &mut cons, &mut out, &mut consumed);
    assert_eq!(r, CallbackOutcome::Streamed { popped: 4, current_frame: Some(352_802) });
    assert_eq!(out, fresh);
}

#[test]
fn flush_position_saturates() {
    let (_prod, mut cons) = SampleRing::new(4).split();
    let f = CallbackFlags {
        is_playing: true,
        flush_pending: true,
        seek_pending: false,
        current_frame: u64::MAX / 2 + 1,
        channels: 2,
        total_frames: 0,
    };
    let mut consumed: u64 = 0;
    let mut out = vec![0u32; 2];
    render_output(&f, &mut cons, &mut out, &mut consumed);
    assert_eq!(consumed, u64::MAX);
}

#[test]
fn push_step_reports_backpressure_and_interruption() {
    let (mut prod, mut cons) = SampleRing::new(4).split();
    let samples: Vec<u32> = (1..=6).collect();
    let mut written: usize = 0;
    assert_eq!(push_step(&mut prod, &samples, &mut written, false, false), PushOutcome::Progress);
    assert_eq!(written, 4);
    assert_eq!(push_step(&mut prod, &samples, &mut written, false, false), PushOutcome::Backpressure);
    assert_eq!(written, 4);
    assert_eq!(push_step(&mut prod, &samples, &mut written, true, false), PushOutcome::Interrupted);
    assert_eq!(push_step(&mut prod, &samples, &mut written, false, true), PushOutcome::Interrupted);
    assert_eq!(written, 4);
    let mut out = vec![0u32; 4];
    assert_eq!(cons.pop_into(&mut out), 4);
    assert_eq!(out, vec![1, 2, 3, 4]);
    assert_eq!(push_step(&mut prod, &samples, &mut written, false, false), PushOutcome::Complete);
    assert_eq!(written, 6);
    assert_eq!(push_step(&mut prod, &samples, &mut written, true, true), PushOutcome::Complete);
    let mut out = vec![0u32; 4];
    assert_eq!(cons.pop_into(&mut out), 2);
    assert_eq!(out, vec![5, 6, 0, 0]);
}

#[test]
fn consumer_skip_drops_at_most_what_is_asked() {
    let (mut prod, mut cons) = SampleRing::new(8).split();
    let samples: Vec<u32> = (1..=5).collect();
    let mut written: usize = 0;
    push_step(&mut prod, &samples, &mut written, false, false);
    assert_eq!(cons.skip(2), 2);
    assert_eq!(cons.skip(10), 3);
    assert_eq!(cons.occupied_len(), 0);
}

#[test]
fn stop_wins_over_seek_which_wins_over_decoding() {
    assert_eq!(next_step(true, true, 9), DecoderStep::Exit);
    assert_eq!(next_step(false, true, 9), DecoderStep::Seek { target_frame: 9 });
    assert_eq!(next_step(false, false, 9), DecoderStep::ReadPacket);
}

#[test]
fn seek_time_splits_seconds_and_nanoseconds() {
    let t = seek_time(44_100 * 2 + 22_050, 44_100);
    assert_eq!((t.seconds, t.nanos), (2, 500_000_000));
    let t = seek_time(1, 3);
    assert_eq!((t.seconds, t.nanos), (0, 333_333_333));
}

#[test]
fn failed_seek_changes_nothing() {
    let e = seek_effects(None);
    assert_eq!(e.landed_frame, None);
    assert!(!e.flush && !e.reset_decoder);
}

#[test]
fn packet_actions() {
    assert_eq!(packet_action(PacketEvent::EndOfStream), PacketAction::FinishStream);
    assert_eq!(packet_action(PacketEvent::OtherTrack), PacketAction::Skip);
    assert_eq!(packet_action(PacketEvent::DecodeFailed), PacketAction::Skip);
    assert_eq!(packet_action(PacketEvent::Decoded), PacketAction::Push);
}

#[test]
fn stream_params_from_probe() {
    let t = TrackInfo { sample_rate: Some(44_100), channels: Some(2), frame_count: Some(441_000) };
    assert_eq!(
        stream_params(Some(t)),
        Ok(StreamParams { sample_rate: 44_100, channels: 2, total_frames: 441_000 })
    );
    let t = TrackInfo { sample_rate: Some(48_000), channels: None, frame_count: None };
    assert_eq!(
        stream_params(Some(t)),
        Ok(StreamParams { sample_rate: 48_000, channels: 2, total_frames: 0 })
    );
    let t = TrackInfo { sample_rate: None, channels: Some(1), frame_count: Some(5) };
    assert_eq!(stream_params(Some(t)), Err(ProbeError::MissingSampleRate));
    let t = TrackInfo { sample_rate: Some(0), channels: Some(1), frame_count: Some(5) };
    assert_eq!(stream_params(Some(t)), Err(ProbeError::MissingSampleRate));
    assert_eq!(stream_params(None), Err(ProbeError::NoAudioTrack));
}

#[test]
fn unloaded_params_are_the_defaults() {
    let p = StreamParams::unloaded();
    assert_eq!((p.sample_rate, p.channels, p.total_frames), (44_100, 2, 0));
}

#[test]
fn ring_capacity_holds_whole_frames() {
    assert_eq!(ring_capacity_for(2), 480_000);
    assert_eq!(ring_capacity_for(7), 479_997);
    let (mut prod, _cons) = session_ring(7);
    let samples = vec![0u32; 480_000];
    let mut written: usize = 0;
    push_step(&mut prod, &samples, &mut written, false, false);
    assert_eq!(written, 479_997);
}

#[test]
fn fallback_rates_start_with_the_file_rate() {
    assert_eq!(fallback_rates(24_000), vec![24_000, 48_000, 44_100, 96_000, 22_050]);
}
