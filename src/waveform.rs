//! Sizing rules of the waveform overview: how many frames to step over while
//! scanning, and into how many seek groups to cut the file.

use vstd::prelude::*;

verus! {

/// The fewest frames looked at per peak before frames may be skipped.
pub const MIN_SAMPLES_PER_PEAK: u64 = 100;
/// The largest frame step.
pub const MAX_SKIP: usize = 50;
/// The most seek groups a file is cut into.
pub const MAX_SEEK_GROUPS: usize = 200;
/// Peaks per seek group before the length of the file is taken into account.
pub const PEAKS_PER_GROUP: usize = 20;

/// `x` held within `[lo, hi]`.
pub open spec fn clamp(x: int, lo: int, hi: int) -> int {
    if x < lo { lo } else if x > hi { hi } else { x }
}

/// The frame step for `num_peaks` peaks over `total_frames` frames: one frame
/// in every `total_frames / (num_peaks * 100)`, at least 1 and at most 50.
/// Without peaks every frame counts as beyond reach, except in an empty file.
pub open spec fn optimal_skip(total_frames: u64, num_peaks: usize) -> int {
    if num_peaks == 0 {
        if total_frames == 0 { 1 } else { MAX_SKIP as int }
    } else {
        clamp(total_frames as int / (num_peaks as int * MIN_SAMPLES_PER_PEAK as int), 1, MAX_SKIP as int)
    }
}

/// Frame step for scanning a file while keeping about a hundred frames per peak.
pub fn calculate_optimal_skip(total_frames: u64, num_peaks: usize) -> (r: usize)
    ensures
        r == optimal_skip(total_frames, num_peaks),
        1 <= r <= MAX_SKIP,
{
    if num_peaks == 0 {
        return if total_frames == 0 { 1 } else { MAX_SKIP };
    }
    let per_peak = total_frames / (num_peaks as u64);
    let skip = per_peak / MIN_SAMPLES_PER_PEAK;
    proof {
        let (t, n, m) = (total_frames as int, num_peaks as int, MIN_SAMPLES_PER_PEAK as int);
        assert(t / n / m == t / (n * m)) by (nonlinear_arith)
            requires n > 0, m > 0, t >= 0;
    }
    if skip < 1 {
        1
    } else if skip > MAX_SKIP as u64 {
        MAX_SKIP
    } else {
        skip as usize
    }
}

/// The seek groups for a file of `total_frames` frames at `sample_rate`: one
/// group per twenty peaks, none under thirty seconds, half as many under five
/// minutes, as many under thirty minutes, and half as many again beyond;
/// always between 1 and 200.
pub open spec fn seek_groups(total_frames: u64, sample_rate: u32, num_peaks: usize) -> int {
    let groups: int = num_peaks as int / PEAKS_PER_GROUP as int;
    let base: int = if groups >= 1 { groups } else { 1 };
    let t = total_frames as int;
    let rate = sample_rate as int;
    let adjusted: int = if t < 30 * rate {
        0
    } else if t < 300 * rate {
        base / 2
    } else if t < 1800 * rate {
        base
    } else {
        base + base / 2
    };
    clamp(adjusted, 1, MAX_SEEK_GROUPS as int)
}

/// Number of groups that the waveform scan seeks to, balancing fewer seeks
/// against decoding less of a long file.
pub fn calculate_seek_groups(total_frames: u64, sample_rate: u32, num_peaks: usize) -> (r: usize)
    ensures
        r == seek_groups(total_frames, sample_rate, num_peaks),
        1 <= r <= MAX_SEEK_GROUPS,
{
    let groups = num_peaks / PEAKS_PER_GROUP;
    let base = if groups >= 1 { groups } else { 1 };
    let rate = sample_rate as u64;
    let adjusted = if total_frames < 30 * rate {
        0
    } else if total_frames < 300 * rate {
        base / 2
    } else if total_frames < 1800 * rate {
        base
    } else {
        base + base / 2
    };
    if adjusted < 1 {
        1
    } else if adjusted > MAX_SEEK_GROUPS {
        MAX_SEEK_GROUPS
    } else {
        adjusted
    }
}

} // verus!
