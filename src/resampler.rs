//! Playback monitoring path: a lock-free, order-preserving handoff from the
//! capture thread to a differently clocked playback thread, and the
//! nearest-neighbour mapping from source samples to output frames.
//! Samples are carried as IEEE-754 `f32` bit patterns; silence is zero.
use crossbeam_deque::{Steal, Stealer, Worker};
use vstd::arithmetic::div_mod::lemma_fundamental_div_mod_converse;
use vstd::prelude::*;

verus! {

#[verifier::external_type_specification]
#[verifier::external_body]
#[verifier::reject_recursive_types(T)]
pub struct ExWorker<T>(Worker<T>);

#[verifier::external_type_specification]
#[verifier::external_body]
#[verifier::reject_recursive_types(T)]
pub struct ExStealer<T>(Stealer<T>);

/// Relies on crossbeam_deque::Worker::new_fifo: an empty queue whose items
/// leave in the order they were pushed.
#[verifier::external_body]
fn new_fifo_worker() -> (r: Worker<u32>) {
    Worker::new_fifo()
}

/// Relies on crossbeam_deque::Worker::stealer: a handle that takes items from the other end.
#[verifier::external_body]
fn stealer_of(w: &Worker<u32>) -> (r: Stealer<u32>) {
    w.stealer()
}

/// Relies on crossbeam_deque::Worker::push: it never blocks.
#[verifier::external_body]
fn push_one(w: &Worker<u32>, sample: u32) {
    w.push(sample)
}

/// Relies on crossbeam_deque::Stealer::steal: it never blocks; an empty queue
/// or a lost race gives no item.
#[verifier::external_body]
fn steal_one(s: &Stealer<u32>) -> (r: Option<u32>) {
    match s.steal() {
        Steal::Success(d) => Some(d),
        Steal::Empty => None,
        Steal::Retry => None,
    }
}

/// The capture side of the handoff.
pub struct SampleProducer {
    worker: Worker<u32>,
}

/// The playback side of the handoff, with the two clocks it bridges.
pub struct PlaybackResampler {
    source: Stealer<u32>,
    source_rate: u32,
    target_rate: u32,
}

/// Source samples needed for `frames` output frames: `frames * source / target`, rounded down.
pub open spec fn needed_spec(frames: int, source_rate: int, target_rate: int) -> int {
    frames * source_rate / target_rate
}

/// The value of output frame `f` of `frames`, taken from `source` by nearest-neighbour scaling.
pub open spec fn nearest_sample(source: Seq<u32>, frames: int, f: int) -> u32 {
    if source.len() == 0 {
        0
    } else {
        source[f * source.len() / frames]
    }
}

/// `out` is `frames` interleaved frames of `channels` channels, each frame the
/// nearest-neighbour pick from `source`, repeated on every channel.
pub open spec fn is_resampling(source: Seq<u32>, frames: int, channels: int, out: Seq<u32>) -> bool {
    &&& out.len() == frames * channels
    &&& forall|k: int| 0 <= k < out.len() ==> #[trigger] out[k] == nearest_sample(source, frames, k / channels)
}

/// The source samples a series of steal attempts gives: each stolen sample,
/// and silence for each attempt that found none.
pub open spec fn silence_fill(steals: Seq<Option<u32>>) -> Seq<u32> {
    Seq::new(
        steals.len(),
        |i: int|
            match steals[i] {
                Some(d) => d,
                None => 0u32,
            },
    )
}

/// Turns steal results into source samples, with silence where nothing came.
pub fn fill_silence(steals: &Vec<Option<u32>>) -> (r: Vec<u32>)
    ensures
        r@ == silence_fill(steals@),
{
    let mut r: Vec<u32> = Vec::new();
    let mut i: usize = 0;
    while i < steals.len()
        invariant
            i <= steals@.len(),
            r@ == silence_fill(steals@).subrange(0, i as int),
        decreases steals@.len() - i,
    {
        let v = match steals[i] {
            Some(d) => d,
            None => 0,
        };
        r.push(v);
        i = i + 1;
        assert(r@ =~= silence_fill(steals@).subrange(0, i as int));
    }
    assert(silence_fill(steals@).subrange(0, steals@.len() as int) =~= silence_fill(steals@));
    r
}

/// Opens a handoff between a capture stream at `source_rate` and playback at `target_rate`.
pub fn handoff(source_rate: u32, target_rate: u32) -> (r: (SampleProducer, PlaybackResampler))
    requires
        target_rate > 0,
    ensures
        r.1.source_rate_spec() == source_rate,
        r.1.target_rate_spec() == target_rate,
{
    let worker = new_fifo_worker();
    let source = stealer_of(&worker);
    (SampleProducer { worker }, PlaybackResampler { source, source_rate, target_rate })
}

impl SampleProducer {
    /// Hands captured samples to the playback side, in order, without blocking.
    pub fn push_samples(&self, samples: &[u32]) {
        let mut i: usize = 0;
        while i < samples.len()
            invariant
                i <= samples@.len(),
            decreases samples@.len() - i,
        {
            push_one(&self.worker, samples[i]);
            i = i + 1;
        }
    }
}

/// Source samples needed for `frames` output frames.
pub fn needed_source_samples(frames: usize, source_rate: u32, target_rate: u32) -> (r: usize)
    requires
        target_rate > 0,
        needed_spec(frames as int, source_rate as int, target_rate as int) <= usize::MAX,
    ensures
        r as int == needed_spec(frames as int, source_rate as int, target_rate as int),
{
    assert(frames as int * source_rate as int <= u128::MAX) by (nonlinear_arith)
        requires
            frames <= usize::MAX,
            source_rate <= u32::MAX,
    ;
    let product: u128 = frames as u128 * source_rate as u128;
    (product / target_rate as u128) as usize
}

/// Maps `frames` output frames onto `source` by nearest-neighbour scaling and
/// writes each value to all `channels` channels of its frame (interleaved).
/// With no source sample the output is silence.
pub fn resample(source: &Vec<u32>, frames: usize, channels: usize) -> (r: Vec<u32>)
    requires
        frames * channels <= usize::MAX,
    ensures
        r@.len() == frames * channels,
        forall|k: int|
            0 <= k < r@.len() ==> #[trigger] r@[k] == nearest_sample(source@, frames as int, k / channels as int),
{
    let mut r: Vec<u32> = Vec::new();
    let m = source.len();
    let mut f: usize = 0;
    while f < frames
        invariant
            f <= frames,
            frames * channels <= usize::MAX,
            m == source@.len(),
            r@.len() == f * channels,
            forall|k: int|
                0 <= k < r@.len() ==> #[trigger] r@[k] == nearest_sample(source@, frames as int, k / channels as int),
        decreases frames - f,
    {
        let value: u32 = if m == 0 {
            0
        } else {
            proof {
                assert(f as int * m as int <= u128::MAX) by (nonlinear_arith)
                    requires
                        f <= usize::MAX,
                        m <= usize::MAX,
                ;
                assert(f * m < frames * m) by (nonlinear_arith)
                    requires
                        f < frames,
                        m > 0,
                ;
                assert((f * m) / (frames as int) < m) by (nonlinear_arith)
                    requires
                        f * m < frames * m,
                        frames > 0,
                ;
            }
            let idx = ((f as u128 * m as u128) / frames as u128) as usize;
            source[idx]
        };
        let mut c: usize = 0;
        while c < channels
            invariant
                f < frames,
                c <= channels,
                frames * channels <= usize::MAX,
                m == source@.len(),
                value == nearest_sample(source@, frames as int, f as int),
                r@.len() == f * channels + c,
                forall|k: int|
                    0 <= k < r@.len() ==> #[trigger] r@[k] == nearest_sample(source@, frames as int, k / channels as int),
            decreases channels - c,
        {
            proof {
                lemma_fundamental_div_mod_converse(
                    (f * channels + c) as int,
                    channels as int,
                    f as int,
                    c as int,
                );
                assert((f + 1) * channels <= frames * channels) by (nonlinear_arith)
                    requires
                        f < frames,
                ;
                assert((f + 1) * channels == f * channels + channels) by (nonlinear_arith);
            }
            r.push(value);
            c = c + 1;
        }
        proof {
            assert((f + 1) * channels == f * channels + channels) by (nonlinear_arith);
        }
        f = f + 1;
    }
    r
}

impl PlaybackResampler {
    pub closed spec fn source_rate_spec(&self) -> u32 {
        self.source_rate
    }

    pub closed spec fn target_rate_spec(&self) -> u32 {
        self.target_rate
    }

    /// Makes exactly `count` non-blocking steal attempts, in order, and returns
    /// what each one gave (`None` where the queue was empty or contended).
    pub fn steal_source(&self, count: usize) -> (r: Vec<Option<u32>>)
        ensures
            r@.len() == count,
    {
        let mut r: Vec<Option<u32>> = Vec::new();
        let mut i: usize = 0;
        while i < count
            invariant
                i <= count,
                r@.len() == i,
            decreases count - i,
        {
            r.push(steal_one(&self.source));
            i = i + 1;
        }
        r
    }

    /// One playback callback: `frames` interleaved frames of `channels` channels,
    /// filled from the source samples that the frame count calls for.
    pub fn render(&self, frames: usize, channels: usize) -> (r: Vec<u32>)
        requires
            self.target_rate_spec() > 0,
            frames * channels <= usize::MAX,
            needed_spec(frames as int, self.source_rate_spec() as int, self.target_rate_spec() as int)
                <= usize::MAX,
        ensures
            r@.len() == frames * channels,
            exists|steals: Seq<Option<u32>>|
                steals.len() == needed_spec(
                    frames as int,
                    self.source_rate_spec() as int,
                    self.target_rate_spec() as int,
                ) && #[trigger] is_resampling(silence_fill(steals), frames as int, channels as int, r@),
    {
        let needed = needed_source_samples(frames, self.source_rate, self.target_rate);
        let steals = self.steal_source(needed);
        let source = fill_silence(&steals);
        let r = resample(&source, frames, channels);
        assert(is_resampling(silence_fill(steals@), frames as int, channels as int, r@));
        r
    }
}

} // verus!
