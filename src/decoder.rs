//! The decoder thread's decisions: what to do on each turn of its loop, how a
//! seek target becomes a source position, and how a decoded block is pushed
//! into the ring under backpressure.

use vstd::prelude::*;
use crate::ring::{pushed_items, SampleProducer};

verus! {

/// Nanoseconds in one second.
pub const NANOS_PER_SECOND: u64 = 1_000_000_000;

/// What the decoder does on one turn of its loop.
#[derive(Debug, Clone, Copy, PartialEq, Eq, Structural)]
pub enum DecoderStep {
    /// A stop was requested: leave the loop at once.
    Exit,
    /// A seek is outstanding: move the source to this frame first.
    Seek { target_frame: u64 },
    /// Read and decode the next packet.
    ReadPacket,
}

/// Chooses the next turn from the flags: a stop wins over a seek, which wins
/// over decoding.
pub fn next_step(should_stop: bool, seek_pending: bool, seek_target_frame: u64) -> (r: DecoderStep)
    ensures
        should_stop ==> r == DecoderStep::Exit,
        !should_stop && seek_pending ==> r == (DecoderStep::Seek { target_frame: seek_target_frame }),
        !should_stop && !seek_pending ==> r == DecoderStep::ReadPacket,
{
    if should_stop {
        DecoderStep::Exit
    } else if seek_pending {
        DecoderStep::Seek { target_frame: seek_target_frame }
    } else {
        DecoderStep::ReadPacket
    }
}

/// A point in time as whole seconds and the nanoseconds past them.
#[derive(Debug, Clone, Copy, PartialEq, Eq, Structural)]
pub struct SeekTime {
    pub seconds: u64,
    pub nanos: u32,
}

/// The time at which frame `target_frame` starts, at `sample_rate` frames per
/// second, rounded down to the nanosecond.
pub fn seek_time(target_frame: u64, sample_rate: u32) -> (r: SeekTime)
    requires
        sample_rate > 0,
    ensures
        r.seconds == target_frame / (sample_rate as u64),
        r.nanos as int == (target_frame as int % sample_rate as int) * NANOS_PER_SECOND as int
            / sample_rate as int,
        r.nanos < NANOS_PER_SECOND,
{
    let rate = sample_rate as u64;
    let seconds = target_frame / rate;
    let rest = target_frame % rate;
    proof {
        let (k, q, m) = (rest as int, rate as int, NANOS_PER_SECOND as int);
        assert(k * m <= 0xffff_ffff * m) by (nonlinear_arith)
            requires k < q, q <= 0xffff_ffff, m > 0;
        assert(k * m / q < m) by (nonlinear_arith)
            requires 0 <= k < q, m > 0;
    }
    let nanos = rest * NANOS_PER_SECOND / rate;
    SeekTime { seconds, nanos: nanos as u32 }
}

/// What the shared state learns once the source has been asked to seek.
#[derive(Debug, Clone, Copy, PartialEq, Eq, Structural)]
pub struct SeekEffects {
    /// The position to publish, where the source moved.
    pub landed_frame: Option<u64>,
    /// Whether the consumer must drop what the ring holds.
    pub flush: bool,
    /// Whether the codec must forget its state before the next packet.
    pub reset_decoder: bool,
}

/// The effects of a seek that landed at `landed` (or failed, on `None`). A
/// failed seek changes nothing and decoding goes on from where it was; either
/// way the request is then cleared.
pub fn seek_effects(landed: Option<u64>) -> (r: SeekEffects)
    ensures
        r.landed_frame == landed,
        r.flush == landed.is_some(),
        r.reset_decoder == landed.is_some(),
{
    match landed {
        Some(frame) => SeekEffects { landed_frame: Some(frame), flush: true, reset_decoder: true },
        None => SeekEffects { landed_frame: None, flush: false, reset_decoder: false },
    }
}

/// What reading one packet from the source gave.
#[derive(Debug, Clone, Copy, PartialEq, Eq, Structural)]
pub enum PacketEvent {
    EndOfStream,
    /// A packet of another track (video, cover art).
    OtherTrack,
    /// A packet of the audio track that the codec could not decode.
    DecodeFailed,
    /// A packet of the audio track, decoded.
    Decoded,
}

/// What the decoder does with a packet.
#[derive(Debug, Clone, Copy, PartialEq, Eq, Structural)]
pub enum PacketAction {
    /// The stream is over: stop playing and leave the loop.
    FinishStream,
    /// Drop the packet and go on with the next one.
    Skip,
    /// Push the decoded samples into the ring.
    Push,
}

/// End of stream ends the session (it is no error); foreign and undecodable
/// packets are skipped; decoded audio is pushed.
pub fn packet_action(event: PacketEvent) -> (r: PacketAction)
    ensures
        event == PacketEvent::EndOfStream <==> r == PacketAction::FinishStream,
        (event == PacketEvent::OtherTrack || event == PacketEvent::DecodeFailed) <==> r
            == PacketAction::Skip,
        event == PacketEvent::Decoded <==> r == PacketAction::Push,
{
    match event {
        PacketEvent::EndOfStream => PacketAction::FinishStream,
        PacketEvent::OtherTrack => PacketAction::Skip,
        PacketEvent::DecodeFailed => PacketAction::Skip,
        PacketEvent::Decoded => PacketAction::Push,
    }
}

/// How one attempt to push the rest of a block went.
#[derive(Debug, Clone, Copy, PartialEq, Eq, Structural)]
pub enum PushOutcome {
    /// The whole block is in the ring.
    Complete,
    /// A stop or a seek was requested: the rest of the block is dropped.
    Interrupted,
    /// The ring is full: wait briefly, then try again.
    Backpressure,
    /// Part of the rest went in: try again at once.
    Progress,
}

/// One attempt to push `samples[*written..]` into the ring. The flags are
/// checked on every attempt, so a full ring never delays a stop or a seek.
pub fn push_step(
    prod: &mut SampleProducer,
    samples: &Vec<u32>,
    written: &mut usize,
    should_stop: bool,
    seek_pending: bool,
) -> (r: PushOutcome)
    requires
        *old(written) <= samples@.len(),
    ensures
        *old(written) <= *final(written) <= samples@.len(),
        pushed_items(*final(prod)) == pushed_items(*old(prod)) + samples@.subrange(
            *old(written) as int,
            *final(written) as int,
        ),
        *old(written) == samples@.len() ==> r == PushOutcome::Complete && *final(prod) == *old(prod),
        *old(written) < samples@.len() && (should_stop || seek_pending) ==> {
            &&& r == PushOutcome::Interrupted
            &&& *final(prod) == *old(prod)
            &&& *final(written) == *old(written)
        },
        *old(written) < samples@.len() && !should_stop && !seek_pending ==> {
            &&& (r == PushOutcome::Complete) == (*final(written) == samples@.len())
            &&& (r == PushOutcome::Backpressure) == (*final(written) == *old(written))
            &&& (r == PushOutcome::Progress) == (*old(written) < *final(written) < samples@.len())
        },
{
    if *written >= samples.len() {
        proof {
            assert(samples@.subrange(*written as int, *written as int) =~= Seq::<u32>::empty());
            assert(pushed_items(*prod) + Seq::<u32>::empty() =~= pushed_items(*prod));
        }
        return PushOutcome::Complete;
    }
    if should_stop || seek_pending {
        proof {
            assert(samples@.subrange(*written as int, *written as int) =~= Seq::<u32>::empty());
            assert(pushed_items(*prod) + Seq::<u32>::empty() =~= pushed_items(*prod));
        }
        return PushOutcome::Interrupted;
    }
    let n = prod.push_from(samples, *written);
    *written = *written + n;
    if *written == samples.len() {
        PushOutcome::Complete
    } else if n == 0 {
        PushOutcome::Backpressure
    } else {
        PushOutcome::Progress
    }
}

} // verus!
