//! The output side: what the device callback writes on each cycle, and the
//! sample rates tried when the device is configured.

use vstd::prelude::*;
use crate::ring::{consumer_capacity, known_waiting, removed_items, still_waiting, SampleConsumer};

verus! {

/// A sample rate that most output devices accept.
pub const RATE_48K: u32 = 48000;
/// The compact-disc sample rate.
pub const RATE_44K1: u32 = 44100;
/// A high-resolution sample rate.
pub const RATE_96K: u32 = 96000;
/// A low-quality sample rate.
pub const RATE_22K05: u32 = 22050;

/// The rates tried in order when opening the output device: the file's own
/// rate first, then the common fallbacks.
pub fn fallback_rates(file_rate: u32) -> (r: Vec<u32>)
    ensures
        r@ == seq![file_rate, RATE_48K, RATE_44K1, RATE_96K, RATE_22K05],
{
    let r = vec![file_rate, RATE_48K, RATE_44K1, RATE_96K, RATE_22K05];
    assert(r@ =~= seq![file_rate, RATE_48K, RATE_44K1, RATE_96K, RATE_22K05]);
    r
}

/// Whether every sample of `s` is silence.
pub open spec fn is_silence(s: Seq<u32>) -> bool {
    forall|i: int| 0 <= i < s.len() ==> s[i] == 0
}

/// `a * b`, or `u64::MAX` where the product does not fit.
pub open spec fn saturating_mul(a: u64, b: u64) -> u64 {
    if a * b > u64::MAX { u64::MAX } else { (a * b) as u64 }
}

/// `a + b`, or `u64::MAX` where the sum does not fit.
pub open spec fn saturating_add(a: u64, b: u64) -> u64 {
    if a + b > u64::MAX { u64::MAX } else { (a + b) as u64 }
}

/// The playback flags that one callback cycle acts on, read together at its
/// start.
#[derive(Debug, Clone, Copy)]
pub struct CallbackFlags {
    pub is_playing: bool,
    pub flush_pending: bool,
    pub seek_pending: bool,
    /// The position that a finished seek left in the shared state, in frames.
    pub current_frame: u64,
    pub channels: u64,
    /// The length of the file in frames; zero where it is not known.
    pub total_frames: u64,
}

/// The position after `consumed` samples of `channels` channels, never past
/// the end of a file of known length.
pub open spec fn position_of(consumed: u64, channels: u64, total_frames: u64) -> u64 {
    let frame = (consumed / channels) as u64;
    if total_frames > 0 && frame > total_frames { total_frames } else { frame }
}

/// What a callback cycle did, and so what the shared state must learn.
#[derive(Debug, Clone, Copy, PartialEq, Eq, Structural)]
pub enum CallbackOutcome {
    /// Paused: silence, nothing taken from the ring.
    Paused,
    /// Stale audio was dropped after a seek: the flush flag is to be cleared.
    Flushed { skipped: usize },
    /// A seek is requested but not yet done at the source: silence.
    AwaitingSeek,
    /// Samples were played; `current_frame` is the position to publish, if
    /// any sample was taken.
    Streamed { popped: usize, current_frame: Option<u64> },
}

/// Writes silence into `out[from..]`.
fn fill_silence(out: &mut Vec<u32>, from: usize)
    requires
        from <= old(out)@.len(),
    ensures
        final(out)@.len() == old(out)@.len(),
        final(out)@.take(from as int) == old(out)@.take(from as int),
        is_silence(final(out)@.skip(from as int)),
        from == 0 ==> is_silence(final(out)@),
{
    let mut i: usize = from;
    while i < out.len()
        invariant
            from <= i <= out@.len(),
            out@.len() == old(out)@.len(),
            out@.take(from as int) == old(out)@.take(from as int),
            forall|j: int| from <= j < i ==> out@[j] == 0,
        decreases out@.len() - i,
    {
        out[i] = 0;
        proof {
            assert(out@.take(from as int) =~= old(out)@.take(from as int));
        }
        i = i + 1;
    }
    assert(out@.skip(0) =~= out@);
}

/// One cycle of the output callback: fills `out` from the ring, or with
/// silence when paused, flushing after a seek, or waiting for a seek.
/// `consumed` counts the samples played since the last seek landed.
pub fn render_output(
    flags: &CallbackFlags,
    cons: &mut SampleConsumer,
    out: &mut Vec<u32>,
    consumed: &mut u64,
) -> (r: CallbackOutcome)
    requires
        flags.channels > 0,
    ensures
        final(out)@.len() == old(out)@.len(),
        !flags.is_playing ==> {
            &&& r == CallbackOutcome::Paused
            &&& is_silence(final(out)@)
            &&& *final(cons) == *old(cons)
            &&& *final(consumed) == *old(consumed)
        },
        flags.is_playing && flags.flush_pending ==> {
            &&& r matches CallbackOutcome::Flushed { skipped }
            &&& skipped >= known_waiting(*old(cons))
            &&& known_waiting(*final(cons)) == 0
            &&& removed_items(*final(cons)).len() == removed_items(*old(cons)).len() + skipped
            &&& removed_items(*final(cons)).take(removed_items(*old(cons)).len() as int)
                == removed_items(*old(cons))
            &&& consumer_capacity(*final(cons)) == consumer_capacity(*old(cons))
            &&& is_silence(final(out)@)
            &&& *final(consumed) == saturating_mul(flags.current_frame, flags.channels)
        },
        flags.is_playing && !flags.flush_pending && flags.seek_pending ==> {
            &&& r == CallbackOutcome::AwaitingSeek
            &&& is_silence(final(out)@)
            &&& *final(cons) == *old(cons)
            &&& *final(consumed) == *old(consumed)
        },
        flags.is_playing && !flags.flush_pending && !flags.seek_pending ==> {
            &&& r matches CallbackOutcome::Streamed { popped, current_frame }
            &&& popped <= old(out)@.len()
            &&& (popped == old(out)@.len() || popped >= known_waiting(*old(cons)))
            &&& removed_items(*final(cons)) == removed_items(*old(cons)) + final(out)@.take(
                popped as int,
            )
            &&& known_waiting(*final(cons)) == still_waiting(known_waiting(*old(cons)), popped as nat)
            &&& consumer_capacity(*final(cons)) == consumer_capacity(*old(cons))
            &&& is_silence(final(out)@.skip(popped as int))
            &&& *final(consumed) == if popped > 0 {
                saturating_add(*old(consumed), popped as u64)
            } else {
                *old(consumed)
            }
            &&& current_frame == if popped > 0 {
                Some(position_of(*final(consumed), flags.channels, flags.total_frames))
            } else {
                None::<u64>
            }
        },
{
    if !flags.is_playing {
        fill_silence(out, 0);
        return CallbackOutcome::Paused;
    }
    if flags.flush_pending {
        let waiting = cons.occupied_len();
        let skipped = cons.skip(waiting);
        *consumed = if flags.current_frame == 0 || flags.channels <= u64::MAX / flags.current_frame {
            proof {
                if flags.current_frame > 0 {
                    lemma_product_fits(flags.current_frame, flags.channels);
                }
            }
            flags.current_frame * flags.channels
        } else {
            proof {
                lemma_product_overflows(flags.current_frame, flags.channels);
            }
            u64::MAX
        };
        fill_silence(out, 0);
        return CallbackOutcome::Flushed { skipped };
    }
    if flags.seek_pending {
        fill_silence(out, 0);
        return CallbackOutcome::AwaitingSeek;
    }
    let popped = cons.pop_into(out);
    let ghost played = out@.take(popped as int);
    fill_silence(out, popped);
    proof {
        assert(out@.take(popped as int) =~= played);
    }
    if popped > 0 {
        let n = popped as u64;
        *consumed = if n <= u64::MAX - *consumed { *consumed + n } else { u64::MAX };
        let frame = *consumed / flags.channels;
        let frame = if flags.total_frames > 0 && frame > flags.total_frames {
            flags.total_frames
        } else {
            frame
        };
        CallbackOutcome::Streamed { popped, current_frame: Some(frame) }
    } else {
        CallbackOutcome::Streamed { popped, current_frame: None }
    }
}

proof fn lemma_product_fits(a: u64, b: u64)
    requires
        a > 0,
        b <= u64::MAX / a,
    ensures
        a * b <= u64::MAX,
{
    assert(a * b <= a * (u64::MAX / a)) by (nonlinear_arith)
        requires a > 0, b <= u64::MAX / a;
    assert(a * (u64::MAX / a) <= u64::MAX) by (nonlinear_arith)
        requires a > 0;
}

proof fn lemma_product_overflows(a: u64, b: u64)
    requires
        a > 0,
        b > u64::MAX / a,
    ensures
        a * b > u64::MAX,
{
    assert(a * b >= a * (u64::MAX / a + 1)) by (nonlinear_arith)
        requires a > 0, b >= u64::MAX / a + 1;
    assert(a * (u64::MAX / a + 1) > u64::MAX) by (nonlinear_arith)
        requires a > 0;
}

} // verus!
