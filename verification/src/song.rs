use vstd::prelude::*;

verus! {

/// Samples per second of the rendered song.
pub const SAMPLE_RATE: usize = 44100;

/// Number of instruments of the synthesizer.
pub const MAX_INSTRUMENTS: usize = 6;

/// Number of patterns in the song.
pub const MAX_PATTERNS: usize = 14;

/// A pattern holds `1 << PATTERN_SIZE_SHIFT` ticks.
pub const PATTERN_SIZE_SHIFT: usize = 4;

/// Ticks per pattern, `1 << PATTERN_SIZE_SHIFT`.
pub const PATTERN_SIZE: usize = 16;

/// Ticks in the whole song.
pub const MAX_TICKS: usize = MAX_PATTERNS * PATTERN_SIZE;

/// Samples rendered per tick.
pub const SAMPLES_PER_TICK: usize = 5292;

/// Samples in the whole song.
pub const MAX_SAMPLES: usize = SAMPLES_PER_TICK * MAX_TICKS;

/// Voices per instrument.
pub const POLYPHONY: usize = 1;

/// A pattern holds `1 << PATTERN_SIZE_SHIFT` ticks, and the song lasts
/// 224 ticks, 1185408 samples.
pub proof fn lemma_song_layout()
    ensures
        PATTERN_SIZE == 1usize << PATTERN_SIZE_SHIFT,
        MAX_TICKS == 224,
        MAX_SAMPLES == 1185408,
{
    assert(1usize << 4usize == 16usize) by (bit_vector);
}

/// A handle on the intro's music. It holds no samples: it gives the size,
/// `MAX_SAMPLES`, of the buffer that the synthesizer renders the song into;
/// the rendering and the buffer of `f32` samples lie outside this library.
pub struct Audio;

impl Audio {
    /// Makes the handle. It renders nothing; the synthesizer fills the
    /// sample buffer outside this library.
    pub fn new() -> (a: Audio) {
        Audio
    }

    /// Number of samples in the buffer the song is rendered into: the song's
    /// 14 patterns of 16 ticks, each of 5292 samples.
    pub fn sample_count(&self) -> (n: usize)
        ensures
            n == MAX_SAMPLES,
            n == 1185408,
            n == SAMPLES_PER_TICK * MAX_PATTERNS * PATTERN_SIZE,
    {
        MAX_SAMPLES
    }
}

} // verus!
