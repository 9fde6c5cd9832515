//! The polyphonic voice engine: a fixed pool of voices, note-on allocation
//! with nearest-frequency stealing, frequency-matched note-off, broadcast
//! parameter setters, and per-sample mixing.

use vstd::prelude::*;

use crate::adsr_envelope::AdsrEnvelope;
use crate::oscillator::Waveform;
use crate::ramp_envelope::RampEnvelope;
use crate::stereo_sample::StereoSample;
use crate::units::{duration_samples_spec, UNIT};
use crate::voice::Voice;

verus! {

/// Upper bound on the voice pool size; keeps a mixed frame comfortably
/// inside `i64`.
pub const MAX_VOICES: usize = 1_000_000;

/// Frequency a fresh pool is parked at: 220 Hz, in millihertz.
pub const DEFAULT_FREQUENCY_MHZ: u64 = 220_000;

/// Absolute distance between a voice's target frequency and `freq`.
pub open spec fn freq_distance_spec(v: Voice, freq: u64) -> int {
    if v.end_frequency >= freq {
        v.end_frequency - freq
    } else {
        freq - v.end_frequency
    }
}

/// Whether the pool has an idle slot.
pub open spec fn has_inactive(s: Seq<Voice>) -> bool {
    exists|j: int| 0 <= j < s.len() && !s[j].active
}

/// `j` is the first idle slot of the pool: note-on reuses it.
pub open spec fn is_first_inactive(s: Seq<Voice>, j: int) -> bool {
    &&& 0 <= j < s.len()
    &&& !s[j].active
    &&& forall|k: int| 0 <= k < j ==> s[k].active
}

/// `j` is the slot note-on steals when no voice is idle: the first voice
/// whose target frequency is nearest `freq` (ties go to pool order).
pub open spec fn is_steal_target(s: Seq<Voice>, freq: u64, j: int) -> bool {
    &&& 0 <= j < s.len()
    &&& (forall|k: int|
        0 <= k < s.len() ==> freq_distance_spec(s[j], freq) <= freq_distance_spec(s[k], freq))
    &&& (forall|k: int| 0 <= k < j ==> freq_distance_spec(s[k], freq) > freq_distance_spec(s[j], freq))
}

/// The first idle slot is unique.
pub proof fn lemma_first_inactive_unique(s: Seq<Voice>, j1: int, j2: int)
    requires
        is_first_inactive(s, j1),
        is_first_inactive(s, j2),
    ensures
        j1 == j2,
{
    if j1 < j2 {
        assert(s[j1].active);
    } else if j2 < j1 {
        assert(s[j2].active);
    }
}

/// The steal target is unique.
pub proof fn lemma_steal_target_unique(s: Seq<Voice>, freq: u64, j1: int, j2: int)
    requires
        is_steal_target(s, freq, j1),
        is_steal_target(s, freq, j2),
    ensures
        j1 == j2,
{
    if j1 < j2 {
        assert(freq_distance_spec(s[j1], freq) > freq_distance_spec(s[j2], freq));
        assert(freq_distance_spec(s[j2], freq) >= freq_distance_spec(s[j1], freq));
    } else if j2 < j1 {
        assert(freq_distance_spec(s[j2], freq) > freq_distance_spec(s[j1], freq));
        assert(freq_distance_spec(s[j1], freq) >= freq_distance_spec(s[j2], freq));
    }
}

/// Mixed output of a pool state: the sum of every voice's output sample.
pub open spec fn mix_spec(s: Seq<Voice>) -> int
    decreases s.len(),
{
    if s.len() == 0 {
        0
    } else {
        mix_spec(s.drop_last()) + s.last().output_spec()
    }
}

/// The polyphonic synthesizer: a pool of voices whose size is fixed at
/// construction.
#[derive(Clone, Debug)]
pub struct PolySynth {
    /// The voice pool, in stable allocation order.
    pub voices: Vec<Voice>,
}

impl PolySynth {
    /// Internal invariant: a bounded pool of well-formed voices.
    pub open spec fn wf(self) -> bool {
        &&& self.voices@.len() <= MAX_VOICES
        &&& (forall|i: int| 0 <= i < self.voices@.len() ==> self.voices@[i].wf())
    }

    /// A fresh engine with `n_voices` idle saw-wave voices.
    pub fn new(sample_rate: u32, n_voices: usize) -> (s: PolySynth)
        requires
            1 <= sample_rate,
            n_voices <= MAX_VOICES,
        ensures
            s.wf(),
            s.voices@.len() == n_voices,
            forall|i: int|
                0 <= i < n_voices ==> s.voices@[i] == Voice::initial_spec(
                    sample_rate,
                    DEFAULT_FREQUENCY_MHZ,
                    Waveform::Saw,
                ),
    {
        PolySynth::with_waveform(sample_rate, n_voices, Waveform::Saw)
    }

    /// A fresh engine rendering the chosen waveform on every voice.
    pub fn with_waveform(sample_rate: u32, n_voices: usize, wave: Waveform) -> (s: PolySynth)
        requires
            1 <= sample_rate,
            n_voices <= MAX_VOICES,
        ensures
            s.wf(),
            s.voices@.len() == n_voices,
            forall|i: int|
                0 <= i < n_voices ==> s.voices@[i] == Voice::initial_spec(
                    sample_rate,
                    DEFAULT_FREQUENCY_MHZ,
                    wave,
                ),
    {
        let mut voices: Vec<Voice> = Vec::new();
        let mut i: usize = 0;
        while i < n_voices
            invariant
                i <= n_voices,
                voices@.len() == i,
                1 <= sample_rate,
                forall|k: int|
                    0 <= k < i ==> voices@[k] == Voice::initial_spec(
                        sample_rate,
                        DEFAULT_FREQUENCY_MHZ,
                        wave,
                    ),
                forall|k: int| 0 <= k < i ==> voices@[k].wf(),
            decreases n_voices - i,
        {
            voices.push(Voice::new(sample_rate, DEFAULT_FREQUENCY_MHZ, wave));
            i = i + 1;
        }
        PolySynth { voices }
    }

    /// Note-on. The first idle voice is re-armed at `freq`; if none is idle,
    /// the voice whose target frequency is numerically closest to `freq`
    /// (first of the ties) is stolen, relying on the envelope's retrigger
    /// fade to mask the discontinuity. An empty pool is left unchanged.
    pub fn play(&mut self, freq: u64)
        requires
            old(self).wf(),
        ensures
            final(self).wf(),
            final(self).voices@.len() == old(self).voices@.len(),
            has_inactive(old(self).voices@) ==> exists|j: int|
                is_first_inactive(old(self).voices@, j),
            forall|j: int|
                is_first_inactive(old(self).voices@, j) ==> final(self).voices@ =~= old(
                    self,
                ).voices@.update(j, old(self).voices@[j].played_spec(freq)),
            (!has_inactive(old(self).voices@) && old(self).voices@.len() > 0) ==> exists|j: int|
                is_steal_target(old(self).voices@, freq, j),
            (!has_inactive(old(self).voices@)) ==> forall|j: int|
                is_steal_target(old(self).voices@, freq, j) ==> final(self).voices@ =~= old(
                    self,
                ).voices@.update(j, old(self).voices@[j].played_spec(freq)),
            old(self).voices@.len() == 0 ==> final(self).voices@ =~= old(self).voices@,
    {
        let ghost s = self.voices@;
        let n: usize = self.voices.len();
        if n == 0 {
            return ;
        }
        let idx: usize = find_first_inactive(&self.voices);
        if idx < n {
            self.voices[idx].play(freq);
            proof {
                assert(is_first_inactive(s, idx as int));
                assert forall|j: int| is_first_inactive(s, j) implies final(self).voices@ =~= s.update(
                    j,
                    s[j].played_spec(freq),
                ) by {
                    lemma_first_inactive_unique(s, j, idx as int);
                }
            }
        } else {
            let target: usize = find_steal_target(&self.voices, freq);
            self.voices[target].play(freq);
            proof {
                assert(!has_inactive(s));
                assert(is_steal_target(s, freq, target as int));
                assert forall|j: int| is_steal_target(s, freq, j) implies final(self).voices@ =~= s.update(
                    j,
                    s[j].played_spec(freq),
                ) by {
                    lemma_steal_target_unique(s, freq, j, target as int);
                }
            }
        }
    }

    /// Note-off. Every active voice whose target frequency equals `freq`
    /// exactly begins its release; every other voice is untouched. With no
    /// matching voice this is a no-op.
    pub fn stop(&mut self, freq: u64)
        requires
            old(self).wf(),
        ensures
            final(self).wf(),
            final(self).voices@.len() == old(self).voices@.len(),
            forall|i: int|
                0 <= i < old(self).voices@.len() ==> final(self).voices@[i] == (if old(
                    self,
                ).voices@[i].active && old(self).voices@[i].end_frequency == freq {
                    old(self).voices@[i].stopped_spec()
                } else {
                    old(self).voices@[i]
                }),
    {
        let n: usize = self.voices.len();
        let mut i: usize = 0;
        while i < n
            invariant
                i <= n,
                n == self.voices@.len(),
                n == old(self).voices@.len(),
                forall|k: int| i <= k < n ==> self.voices@[k] == old(self).voices@[k],
                forall|k: int| i <= k < n ==> self.voices@[k].wf(),
                forall|k: int|
                    0 <= k < i ==> self.voices@[k] == (if old(self).voices@[k].active && old(
                        self,
                    ).voices@[k].end_frequency == freq {
                        old(self).voices@[k].stopped_spec()
                    } else {
                        old(self).voices@[k]
                    }),
                forall|k: int| 0 <= k < i ==> self.voices@[k].wf(),
            decreases n - i,
        {
            if self.voices[i].active && self.voices[i].get_frequency() == freq {
                self.voices[i].stop();
            }
            i = i + 1;
        }
    }

    /// Render one frame: every voice advances by exactly one sample and the
    /// pool's outputs are summed with no normalization.
    pub fn next_sample(&mut self) -> (out: StereoSample)
        requires
            old(self).wf(),
        ensures
            final(self).wf(),
            final(self).voices@.len() == old(self).voices@.len(),
            forall|i: int|
                0 <= i < old(self).voices@.len() ==> final(self).voices@[i] == old(
                    self,
                ).voices@[i].stepped_spec(),
            out.left == mix_spec(old(self).voices@),
            out.right == out.left,
    {
        let n: usize = self.voices.len();
        let mut acc: i64 = 0;
        let mut i: usize = 0;
        while i < n
            invariant
                i <= n,
                n == self.voices@.len(),
                n == old(self).voices@.len(),
                n <= MAX_VOICES,
                forall|k: int| i <= k < n ==> self.voices@[k] == old(self).voices@[k],
                forall|k: int| i <= k < n ==> self.voices@[k].wf(),
                forall|k: int| 0 <= k < i ==> self.voices@[k] == old(self).voices@[k].stepped_spec(),
                forall|k: int| 0 <= k < i ==> self.voices@[k].wf(),
                acc == mix_spec(old(self).voices@.take(i as int)),
                -(i * (UNIT as int)) <= acc <= i * (UNIT as int),
            decreases n - i,
        {
            let s: StereoSample = self.voices[i].next_sample();
            proof {
                let pre = old(self).voices@.take(i as int);
                let post = old(self).voices@.take(i + 1);
                assert(post.drop_last() =~= pre);
                assert(post.last() == old(self).voices@[i as int]);
            }
            acc = acc + s.left;
            i = i + 1;
        }
        proof {
            assert(old(self).voices@.take(n as int) =~= old(self).voices@);
        }
        StereoSample::from_mono(acc)
    }

    /// Broadcast a new attack duration (microseconds) to every voice.
    pub fn set_attack(&mut self, micros: u64)
        requires
            old(self).wf(),
        ensures
            final(self).wf(),
            final(self).voices@.len() == old(self).voices@.len(),
            forall|i: int|
                0 <= i < old(self).voices@.len() ==> final(self).voices@[i] == (Voice {
                    env: (AdsrEnvelope {
                        attack_n: duration_samples_spec(
                            micros as int,
                            old(self).voices@[i].env.sample_rate as int,
                        ) as u64,
                        ..old(self).voices@[i].env
                    }),
                    ..old(self).voices@[i]
                }),
    {
        let n: usize = self.voices.len();
        let mut i: usize = 0;
        while i < n
            invariant
                i <= n,
                n == self.voices@.len(),
                n == old(self).voices@.len(),
                forall|k: int| i <= k < n ==> self.voices@[k] == old(self).voices@[k],
                forall|k: int| i <= k < n ==> self.voices@[k].wf(),
                forall|k: int|
                    0 <= k < i ==> self.voices@[k] == (Voice {
                        env: (AdsrEnvelope {
                            attack_n: duration_samples_spec(
                                micros as int,
                                old(self).voices@[k].env.sample_rate as int,
                            ) as u64,
                            ..old(self).voices@[k].env
                        }),
                        ..old(self).voices@[k]
                    }),
                forall|k: int| 0 <= k < i ==> self.voices@[k].wf(),
            decreases n - i,
        {
            self.voices[i].env.set_attack(micros);
            i = i + 1;
        }
    }

    /// Broadcast a new decay duration (microseconds) to every voice.
    pub fn set_decay(&mut self, micros: u64)
        requires
            old(self).wf(),
        ensures
            final(self).wf(),
            final(self).voices@.len() == old(self).voices@.len(),
            forall|i: int|
                0 <= i < old(self).voices@.len() ==> final(self).voices@[i] == (Voice {
                    env: (AdsrEnvelope {
                        decay_n: duration_samples_spec(
                            micros as int,
                            old(self).voices@[i].env.sample_rate as int,
                        ) as u64,
                        ..old(self).voices@[i].env
                    }),
                    ..old(self).voices@[i]
                }),
    {
        let n: usize = self.voices.len();
        let mut i: usize = 0;
        while i < n
            invariant
                i <= n,
                n == self.voices@.len(),
                n == old(self).voices@.len(),
                forall|k: int| i <= k < n ==> self.voices@[k] == old(self).voices@[k],
                forall|k: int| i <= k < n ==> self.voices@[k].wf(),
                forall|k: int|
                    0 <= k < i ==> self.voices@[k] == (Voice {
                        env: (AdsrEnvelope {
                            decay_n: duration_samples_spec(
                                micros as int,
                                old(self).voices@[k].env.sample_rate as int,
                            ) as u64,
                            ..old(self).voices@[k].env
                        }),
                        ..old(self).voices@[k]
                    }),
                forall|k: int| 0 <= k < i ==> self.voices@[k].wf(),
            decreases n - i,
        {
            self.voices[i].env.set_decay(micros);
            i = i + 1;
        }
    }

    /// Broadcast a new sustain level (micro-units, clamped to one unit) to
    /// every voice.
    pub fn set_sustain(&mut self, level: u64)
        requires
            old(self).wf(),
        ensures
            final(self).wf(),
            final(self).voices@.len() == old(self).voices@.len(),
            forall|i: int|
                0 <= i < old(self).voices@.len() ==> final(self).voices@[i] == (Voice {
                    env: (AdsrEnvelope {
                        sustain: if level <= UNIT {
                            level
                        } else {
                            UNIT
                        },
                        ..old(self).voices@[i].env
                    }),
                    ..old(self).voices@[i]
                }),
    {
        let n: usize = self.voices.len();
        let mut i: usize = 0;
        while i < n
            invariant
                i <= n,
                n == self.voices@.len(),
                n == old(self).voices@.len(),
                forall|k: int| i <= k < n ==> self.voices@[k] == old(self).voices@[k],
                forall|k: int| i <= k < n ==> self.voices@[k].wf(),
                forall|k: int|
                    0 <= k < i ==> self.voices@[k] == (Voice {
                        env: (AdsrEnvelope {
                            sustain: if level <= UNIT {
                                level
                            } else {
                                UNIT
                            },
                            ..old(self).voices@[k].env
                        }),
                        ..old(self).voices@[k]
                    }),
                forall|k: int| 0 <= k < i ==> self.voices@[k].wf(),
            decreases n - i,
        {
            self.voices[i].env.set_sustain(level);
            i = i + 1;
        }
    }

    /// Broadcast a new release duration (microseconds) to every voice.
    pub fn set_release(&mut self, micros: u64)
        requires
            old(self).wf(),
        ensures
            final(self).wf(),
            final(self).voices@.len() == old(self).voices@.len(),
            forall|i: int|
                0 <= i < old(self).voices@.len() ==> final(self).voices@[i] == (Voice {
                    env: (AdsrEnvelope {
                        release_n: duration_samples_spec(
                            micros as int,
                            old(self).voices@[i].env.sample_rate as int,
                        ) as u64,
                        ..old(self).voices@[i].env
                    }),
                    ..old(self).voices@[i]
                }),
    {
        let n: usize = self.voices.len();
        let mut i: usize = 0;
        while i < n
            invariant
                i <= n,
                n == self.voices@.len(),
                n == old(self).voices@.len(),
                forall|k: int| i <= k < n ==> self.voices@[k] == old(self).voices@[k],
                forall|k: int| i <= k < n ==> self.voices@[k].wf(),
                forall|k: int|
                    0 <= k < i ==> self.voices@[k] == (Voice {
                        env: (AdsrEnvelope {
                            release_n: duration_samples_spec(
                                micros as int,
                                old(self).voices@[k].env.sample_rate as int,
                            ) as u64,
                            ..old(self).voices@[k].env
                        }),
                        ..old(self).voices@[k]
                    }),
                forall|k: int| 0 <= k < i ==> self.voices@[k].wf(),
            decreases n - i,
        {
            self.voices[i].env.set_release(micros);
            i = i + 1;
        }
    }

    /// Broadcast a new glide duration (microseconds) to every voice.
    pub fn set_glide(&mut self, micros: u64)
        requires
            old(self).wf(),
        ensures
            final(self).wf(),
            final(self).voices@.len() == old(self).voices@.len(),
            forall|i: int|
                0 <= i < old(self).voices@.len() ==> final(self).voices@[i] == (Voice {
                    frequency_env: (RampEnvelope {
                        ramp_n: duration_samples_spec(
                            micros as int,
                            old(self).voices@[i].frequency_env.sample_rate as int,
                        ) as u64,
                        ..old(self).voices@[i].frequency_env
                    }),
                    ..old(self).voices@[i]
                }),
    {
        let n: usize = self.voices.len();
        let mut i: usize = 0;
        while i < n
            invariant
                i <= n,
                n == self.voices@.len(),
                n == old(self).voices@.len(),
                forall|k: int| i <= k < n ==> self.voices@[k] == old(self).voices@[k],
                forall|k: int| i <= k < n ==> self.voices@[k].wf(),
                forall|k: int|
                    0 <= k < i ==> self.voices@[k] == (Voice {
                        frequency_env: (RampEnvelope {
                            ramp_n: duration_samples_spec(
                                micros as int,
                                old(self).voices@[k].frequency_env.sample_rate as int,
                            ) as u64,
                            ..old(self).voices@[k].frequency_env
                        }),
                        ..old(self).voices@[k]
                    }),
                forall|k: int| 0 <= k < i ==> self.voices@[k].wf(),
            decreases n - i,
        {
            self.voices[i].frequency_env.set_ramp(micros);
            i = i + 1;
        }
    }
}

/// Index of the first idle voice, or the pool size if every voice is busy.
fn find_first_inactive(voices: &Vec<Voice>) -> (r: usize)
    ensures
        r <= voices@.len(),
        r < voices@.len() ==> is_first_inactive(voices@, r as int),
        r == voices@.len() ==> !has_inactive(voices@),
{
    let n: usize = voices.len();
    let mut i: usize = 0;
    while i < n
        invariant
            i <= n,
            n == voices@.len(),
            forall|k: int| 0 <= k < i ==> voices@[k].active,
        decreases n - i,
    {
        if !voices[i].active {
            return i;
        }
        i = i + 1;
    }
    n
}

/// Index of the first voice whose target frequency is nearest `freq`.
fn find_steal_target(voices: &Vec<Voice>, freq: u64) -> (r: usize)
    requires
        voices@.len() > 0,
    ensures
        r < voices@.len(),
        is_steal_target(voices@, freq, r as int),
{
    let n: usize = voices.len();
    let mut best: usize = 0;
    let mut best_d: u64 = freq_distance(&voices[0], freq);
    let mut i: usize = 1;
    while i < n
        invariant
            1 <= i <= n,
            n == voices@.len(),
            best < i,
            best_d == freq_distance_spec(voices@[best as int], freq),
            forall|k: int| 0 <= k < i ==> best_d <= freq_distance_spec(voices@[k], freq),
            forall|k: int| 0 <= k < best ==> freq_distance_spec(voices@[k], freq) > best_d,
        decreases n - i,
    {
        let d: u64 = freq_distance(&voices[i], freq);
        if d < best_d {
            best = i;
            best_d = d;
        }
        i = i + 1;
    }
    best
}

/// Exact value of [`freq_distance_spec`].
fn freq_distance(v: &Voice, freq: u64) -> (d: u64)
    ensures
        d == freq_distance_spec(*v, freq),
{
    if v.end_frequency >= freq {
        v.end_frequency - freq
    } else {
        freq - v.end_frequency
    }
}

} // verus!
