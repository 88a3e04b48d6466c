use std::collections::HashMap;
use vstd::prelude::*;

verus! {

/// Time elapsed from `from` to `to`, in the clock's unit; zero when the clock
/// reads earlier than `from`.
pub open spec fn elapsed(from: u64, to: u64) -> u64 {
    if to >= from {
        (to - from) as u64
    } else {
        0
    }
}

/// Typing speed in tenths of a character per minute: `count` correct
/// keystrokes over `elapsed_ms` milliseconds, rounded down, and zero when no
/// time has passed.
pub open spec fn speed_tenths(count: nat, elapsed_ms: nat) -> nat {
    if elapsed_ms == 0 {
        0
    } else {
        count * 600000 / elapsed_ms
    }
}

/// The timings recorded for `key` in `m`, empty when there are none.
pub open spec fn timings_of(m: Map<u32, Vec<u64>>, key: u32) -> Seq<u64> {
    if m.contains_key(key) {
        m[key]@
    } else {
        Seq::empty()
    }
}

/// The error count recorded for `key` in `m`, zero when there is none.
pub open spec fn errors_of(m: Map<u32, usize>, key: u32) -> nat {
    if m.contains_key(key) {
        m[key] as nat
    } else {
        0
    }
}

/// The statistics of one finished typing sample. The start and the key
/// timings are in milliseconds, the sample's duration `time` in
/// microseconds; keys are characters as `u32` codes.
pub struct SampleStatistic {
    pub start_time: u64,
    pub key_timings: HashMap<u32, Vec<u64>>,
    pub key_errors: HashMap<u32, usize>,
    pub length: usize,
    pub time: u128,
    pub errors: usize,
}

impl SampleStatistic {
    pub fn new(
        start_time: u64,
        key_timings: HashMap<u32, Vec<u64>>,
        key_errors: HashMap<u32, usize>,
        length: usize,
        time: u128,
        errors: usize,
    ) -> (r: SampleStatistic)
        ensures
            r == (SampleStatistic { start_time, key_timings, key_errors, length, time, errors }),
    {
        SampleStatistic { start_time, key_timings, key_errors, length, time, errors }
    }
}

/// A snapshot of the running sample.
pub struct TypingState {
    /// Correct keystrokes per minute, in tenths.
    pub speed_tenths: u128,
    pub errors: usize,
}

/// Accumulates keystroke statistics over a sample and archives finished
/// samples. Times are milliseconds of a monotonic clock, read by the caller;
/// keys are characters as `u32` codes.
pub struct TypingStatistic {
    pub samples: Vec<SampleStatistic>,
    /// For each key, the time taken by each correct press of it.
    pub key_timings: HashMap<u32, Vec<u64>>,
    /// For each key, how often it was missed.
    pub key_errors: HashMap<u32, usize>,
    pub start_sample: u64,
    /// When the last keystroke, or the sample, started.
    pub start_key: u64,
    pub key_count: usize,
    pub errors_count: usize,
    pub finished: bool,
}

impl TypingStatistic {
    /// No key's error count exceeds the sample's.
    pub open spec fn wf(&self) -> bool {
        forall|k: u32| #[trigger]
            self.key_errors@.contains_key(k) ==> self.key_errors@[k] <= self.errors_count
    }

    /// An idle accumulator with no samples, whose clock starts at `now`.
    pub fn new(now: u64) -> (r: Self)
        ensures
            r.wf(),
            r.samples@.len() == 0,
            r.key_timings@.len() == 0,
            r.key_errors@.len() == 0,
            r.start_sample == now,
            r.start_key == now,
            r.key_count == 0,
            r.errors_count == 0,
            r.finished,
    {
        TypingStatistic {
            samples: Vec::new(),
            key_timings: HashMap::new(),
            key_errors: HashMap::new(),
            start_sample: now,
            start_key: now,
            key_count: 0,
            errors_count: 0,
            finished: true,
        }
    }

    /// Speed since the sample started and errors so far.
    pub fn get_current_state(&self, now: u64) -> (r: TypingState)
        ensures
            r.speed_tenths == speed_tenths(
                self.key_count as nat,
                elapsed(self.start_sample, now) as nat,
            ),
            r.errors == self.errors_count,
    {
        let time: u64 = if now >= self.start_sample {
            now - self.start_sample
        } else {
            0
        };
        let speed: u128 = if time == 0 {
            0
        } else {
            assert(self.key_count as u128 * 600000 <= u128::MAX) by (nonlinear_arith)
                requires
                    self.key_count <= usize::MAX,
            ;
            (self.key_count as u128 * 600000) / (time as u128)
        };
        TypingState { speed_tenths: speed, errors: self.errors_count }
    }

    pub fn is_finished(&self) -> (r: bool)
        ensures
            r == self.finished,
    {
        self.finished
    }

    /// Starts a sample at `now`: the counts and per-key records of the
    /// sample are cleared; archived samples stay.
    pub fn start_sample(&mut self, now: u64)
        ensures
            final(self).wf(),
            final(self).samples == old(self).samples,
            final(self).key_timings@.len() == 0,
            final(self).key_errors@.len() == 0,
            final(self).start_sample == now,
            final(self).start_key == now,
            final(self).key_count == 0,
            final(self).errors_count == 0,
            !final(self).finished,
    {
        self.key_timings = HashMap::new();
        self.key_errors = HashMap::new();
        self.start_sample = now;
        self.start_key = now;
        self.key_count = 0;
        self.errors_count = 0;
        self.finished = false;
    }

    /// Records a keystroke of `key` at `now`. A correct one adds the time since
    /// the previous keystroke to the key's timings; a wrong one counts an error
    /// against the key. Either way the next keystroke is timed from `now`.
    pub fn key_pressed(&mut self, key: char, correct: bool, now: u64)
        requires
            old(self).wf(),
            correct ==> old(self).key_count < usize::MAX,
            !correct ==> old(self).errors_count < usize::MAX,
        ensures
            final(self).wf(),
            final(self).start_key == now,
            final(self).samples == old(self).samples,
            final(self).start_sample == old(self).start_sample,
            final(self).finished == old(self).finished,
            correct ==> {
                &&& final(self).key_count == old(self).key_count + 1
                &&& final(self).errors_count == old(self).errors_count
                &&& final(self).key_errors@ == old(self).key_errors@
                &&& final(self).key_timings@.contains_key(key as u32)
                &&& final(self).key_timings@[key as u32]@ == timings_of(
                    old(self).key_timings@,
                    key as u32,
                ).push(elapsed(old(self).start_key, now))
                &&& final(self).key_timings@.remove(key as u32) == old(
                    self,
                ).key_timings@.remove(key as u32)
            },
            !correct ==> {
                &&& final(self).key_count == old(self).key_count
                &&& final(self).errors_count == old(self).errors_count + 1
                &&& final(self).key_timings@ == old(self).key_timings@
                &&& final(self).key_errors@ == old(self).key_errors@.insert(
                    key as u32,
                    (errors_of(old(self).key_errors@, key as u32) + 1) as usize,
                )
            },
    {
        let time: u64 = if now >= self.start_key {
            now - self.start_key
        } else {
            0
        };
        let code = key as u32;
        if correct {
            let mut timings = match self.key_timings.remove(&code) {
                Some(t) => t,
                None => Vec::new(),
            };
            timings.push(time);
            self.key_timings.insert(code, timings);
            self.key_count = self.key_count + 1;
            assert(self.key_timings@.remove(code) =~= old(self).key_timings@.remove(code));
        } else {
            let count: usize = match self.key_errors.get(&code) {
                Some(n) => *n,
                None => 0,
            };
            self.key_errors.insert(code, count + 1);
            self.errors_count = self.errors_count + 1;
        }
        self.start_key = now;
    }

    /// Archives the running sample, which ends at `now`, with its duration
    /// in microseconds, and resets the accumulator to an idle state whose
    /// clock starts at `now`.
    pub fn finish_sample(&mut self, now: u64)
        ensures
            final(self).wf(),
            final(self).samples@ == old(self).samples@.push(
                SampleStatistic {
                    start_time: old(self).start_sample,
                    key_timings: old(self).key_timings,
                    key_errors: old(self).key_errors,
                    length: old(self).key_count,
                    time: (elapsed(old(self).start_sample, now) * 1000) as u128,
                    errors: old(self).errors_count,
                },
            ),
            final(self).key_timings@.len() == 0,
            final(self).key_errors@.len() == 0,
            final(self).start_sample == now,
            final(self).start_key == now,
            final(self).key_count == 0,
            final(self).errors_count == 0,
            final(self).finished,
    {
        let time_ms: u64 = if now >= self.start_sample {
            now - self.start_sample
        } else {
            0
        };
        let time: u128 = time_ms as u128 * 1000;
        let mut key_timings: HashMap<u32, Vec<u64>> = HashMap::new();
        let mut key_errors: HashMap<u32, usize> = HashMap::new();
        core::mem::swap(&mut key_timings, &mut self.key_timings);
        core::mem::swap(&mut key_errors, &mut self.key_errors);
        let sample = SampleStatistic::new(
            self.start_sample,
            key_timings,
            key_errors,
            self.key_count,
            time,
            self.errors_count,
        );
        self.samples.push(sample);
        self.start_sample = now;
        self.start_key = now;
        self.key_count = 0;
        self.errors_count = 0;
        self.finished = true;
    }
}

} // verus!
