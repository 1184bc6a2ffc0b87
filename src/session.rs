//! What a playback session is set up from: the stream parameters read from
//! the file before any thread starts, and the size of its ring.

use vstd::prelude::*;
use crate::ring::{
    consumer_capacity, known_waiting, producer_capacity, pushed_items, removed_items,
    SampleConsumer, SampleProducer, SampleRing,
};

verus! {

/// Five seconds of 48 kHz stereo, in samples: the ring size before it is
/// rounded down to whole frames.
pub const RING_SAMPLES: usize = 480000;

/// The rate assumed before a file is loaded.
pub const DEFAULT_SAMPLE_RATE: u32 = 44100;

/// The channel count assumed where a file does not state one.
pub const DEFAULT_CHANNELS: u16 = 2;

/// The metadata of a file's audio track, as the decode library reports it.
#[derive(Debug, Clone, Copy)]
pub struct TrackInfo {
    pub sample_rate: Option<u32>,
    pub channels: Option<u16>,
    pub frame_count: Option<u64>,
}

/// The parameters fixed for a whole session.
#[derive(Debug, Clone, Copy, PartialEq, Eq, Structural)]
pub struct StreamParams {
    pub sample_rate: u32,
    pub channels: u16,
    pub total_frames: u64,
}

impl StreamParams {
    pub open spec fn wf(&self) -> bool {
        self.sample_rate > 0 && self.channels > 0
    }

    /// The parameters held before any file is loaded.
    pub fn unloaded() -> (r: StreamParams)
        ensures
            r.sample_rate == DEFAULT_SAMPLE_RATE,
            r.channels == DEFAULT_CHANNELS,
            r.total_frames == 0,
            r.wf(),
    {
        StreamParams { sample_rate: DEFAULT_SAMPLE_RATE, channels: DEFAULT_CHANNELS, total_frames: 0 }
    }
}

/// Why a file cannot be played.
#[derive(Debug, Clone, Copy, PartialEq, Eq, Structural)]
pub enum ProbeError {
    /// The file has no track that a codec can decode.
    NoAudioTrack,
    /// The audio track states no (or a zero) sample rate.
    MissingSampleRate,
}

/// The channel count to use for a track: the stated one, or stereo where it
/// states none or zero.
pub open spec fn channels_of(stated: Option<u16>) -> u16 {
    match stated {
        Some(c) => if c > 0 { c } else { DEFAULT_CHANNELS },
        None => DEFAULT_CHANNELS,
    }
}

/// The session parameters of a probed file: fails without an audio track or
/// without a sample rate; an unknown length counts as zero frames.
pub fn stream_params(track: Option<TrackInfo>) -> (r: Result<StreamParams, ProbeError>)
    ensures
        track.is_none() <==> r == Err::<StreamParams, ProbeError>(ProbeError::NoAudioTrack),
        track matches Some(t) && (t.sample_rate is None || t.sample_rate == Some(0u32)) <==> r
            == Err::<StreamParams, ProbeError>(ProbeError::MissingSampleRate),
        r matches Ok(p) ==> {
            &&& track matches Some(t)
            &&& t.sample_rate == Some(p.sample_rate)
            &&& p.channels == channels_of(t.channels)
            &&& p.total_frames == match t.frame_count { Some(n) => n, None => 0 }
            &&& p.wf()
        },
{
    match track {
        None => Err(ProbeError::NoAudioTrack),
        Some(t) => match t.sample_rate {
            None => Err(ProbeError::MissingSampleRate),
            Some(rate) => {
                if rate == 0 {
                    return Err(ProbeError::MissingSampleRate);
                }
                let channels = match t.channels {
                    Some(c) => if c > 0 { c } else { DEFAULT_CHANNELS },
                    None => DEFAULT_CHANNELS,
                };
                let total_frames = match t.frame_count {
                    Some(n) => n,
                    None => 0,
                };
                Ok(StreamParams { sample_rate: rate, channels, total_frames })
            },
        },
    }
}

/// The largest multiple of `channels` that is at most `RING_SAMPLES`.
pub open spec fn ring_capacity_for_spec(channels: u16) -> nat {
    (RING_SAMPLES as int - RING_SAMPLES as int % (channels as int)) as nat
}

/// The ring size for `channels` interleaved channels: the largest multiple of
/// the channel count that is at most `RING_SAMPLES`, so that a wrap of the
/// ring never splits a frame.
pub fn ring_capacity_for(channels: u16) -> (r: usize)
    requires
        channels > 0,
    ensures
        r == ring_capacity_for_spec(channels),
        r % (channels as usize) == 0,
        RING_SAMPLES - (channels as usize) < r <= RING_SAMPLES,
{
    let c = channels as usize;
    let r = RING_SAMPLES - RING_SAMPLES % c;
    proof {
        let (n, k) = (RING_SAMPLES as int, c as int);
        assert((n - n % k) % k == 0) by (nonlinear_arith)
            requires k > 0, n >= 0;
    }
    r
}

/// The two halves of a fresh ring for a session with `channels` channels:
/// sized by `ring_capacity_for`, so a whole number of frames, with nothing
/// pushed, seen or removed yet.
pub fn session_ring(channels: u16) -> (r: (SampleProducer, SampleConsumer))
    requires
        channels > 0,
    ensures
        producer_capacity(r.0) == ring_capacity_for_spec(channels),
        consumer_capacity(r.1) == ring_capacity_for_spec(channels),
        ring_capacity_for_spec(channels) % (channels as nat) == 0,
        RING_SAMPLES - channels < ring_capacity_for_spec(channels) <= RING_SAMPLES,
        pushed_items(r.0) == Seq::<u32>::empty(),
        removed_items(r.1) == Seq::<u32>::empty(),
        known_waiting(r.1) == 0,
{
    SampleRing::new(ring_capacity_for(channels)).split()
}

} // verus!
