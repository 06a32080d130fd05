//! Accumulates variably sized audio callbacks into fixed 10 ms frames.
use crate::error::{Error, Result, SG_Error};
use crate::format::{frame_capacity, SG_SampleRate, SG_SampleType};
use vstd::prelude::*;

verus! {

/// Pending samples, in the one numeric representation a session is bound to.
/// Floating-point samples are carried as their IEEE-754 bit patterns.
#[derive(Debug)]
pub enum AudioBuffer {
    PCM8(Vec<i8>),
    PCM16(Vec<i16>),
    PCM32(Vec<i32>),
    Float32(Vec<u32>),
    Float64(Vec<u64>),
}

/// The sample quantizer: pending samples and the rate that fixes the frame size.
#[derive(Debug)]
pub struct AudioQueue {
    pub buffer: AudioBuffer,
    pub sample_rate: SG_SampleRate,
}

/// What one push does: the pending samples and the input are joined; when that
/// reaches the capacity, its first `cap` samples form the frame and the rest
/// stays pending. At most one frame comes out of one push.
pub open spec fn push_model<T>(pending: Seq<T>, input: Seq<T>, cap: nat) -> (Seq<T>, Option<Seq<T>>) {
    let all = pending + input;
    if all.len() >= cap {
        (all.subrange(cap as int, all.len() as int), Some(all.subrange(0, cap as int)))
    } else {
        (all, None)
    }
}

/// A series of pushes from `pending`: the samples left pending and the frames emitted, in order.
pub open spec fn run_pushes<T>(pending: Seq<T>, parts: Seq<Seq<T>>, cap: nat) -> (Seq<T>, Seq<Seq<T>>)
    decreases parts.len(),
{
    if parts.len() == 0 {
        (pending, Seq::empty())
    } else {
        let step = push_model(pending, parts[0], cap);
        let rest = run_pushes(step.0, parts.drop_first(), cap);
        match step.1 {
            Some(frame) => (rest.0, seq![frame] + rest.1),
            None => rest,
        }
    }
}

pub open spec fn opt_view<T>(o: Option<Vec<T>>) -> Option<Seq<T>> {
    match o {
        Some(v) => Some(v@),
        None => None,
    }
}

pub open spec fn buffer_type(b: AudioBuffer) -> SG_SampleType {
    match b {
        AudioBuffer::PCM8(_) => SG_SampleType::SG_SAMPLE_PCM8,
        AudioBuffer::PCM16(_) => SG_SampleType::SG_SAMPLE_PCM16,
        AudioBuffer::PCM32(_) => SG_SampleType::SG_SAMPLE_PCM32,
        AudioBuffer::Float32(_) => SG_SampleType::SG_SAMPLE_FLOAT32,
        AudioBuffer::Float64(_) => SG_SampleType::SG_SAMPLE_FLOAT64,
    }
}

pub open spec fn pending_len(b: AudioBuffer) -> nat {
    match b {
        AudioBuffer::PCM8(v) => v@.len(),
        AudioBuffer::PCM16(v) => v@.len(),
        AudioBuffer::PCM32(v) => v@.len(),
        AudioBuffer::Float32(v) => v@.len(),
        AudioBuffer::Float64(v) => v@.len(),
    }
}

pub open spec fn pending_pcm8(b: AudioBuffer) -> Option<Seq<i8>> {
    match b {
        AudioBuffer::PCM8(v) => Some(v@),
        _ => None,
    }
}

pub open spec fn pending_pcm16(b: AudioBuffer) -> Option<Seq<i16>> {
    match b {
        AudioBuffer::PCM16(v) => Some(v@),
        _ => None,
    }
}

pub open spec fn pending_pcm32(b: AudioBuffer) -> Option<Seq<i32>> {
    match b {
        AudioBuffer::PCM32(v) => Some(v@),
        _ => None,
    }
}

pub open spec fn pending_float32(b: AudioBuffer) -> Option<Seq<u32>> {
    match b {
        AudioBuffer::Float32(v) => Some(v@),
        _ => None,
    }
}

pub open spec fn pending_float64(b: AudioBuffer) -> Option<Seq<u64>> {
    match b {
        AudioBuffer::Float64(v) => Some(v@),
        _ => None,
    }
}

/// Appends `buffer` to `vec` and splits off one frame of `capacity` samples when there is one.
pub fn add_data<T: Copy>(vec: &mut Vec<T>, buffer: &[T], capacity: usize) -> (r: Option<Vec<T>>)
    ensures
        (final(vec)@, opt_view(r)) == push_model(old(vec)@, buffer@, capacity as nat),
{
    let ghost start = vec@;
    let mut i: usize = 0;
    while i < buffer.len()
        invariant
            i <= buffer@.len(),
            vec@ == start + buffer@.subrange(0, i as int),
        decreases buffer@.len() - i,
    {
        vec.push(buffer[i]);
        i = i + 1;
        assert(vec@ =~= start + buffer@.subrange(0, i as int));
    }
    assert(buffer@.subrange(0, buffer@.len() as int) =~= buffer@);
    if vec.len() >= capacity {
        let mut frame = vec.split_off(capacity);
        core::mem::swap(vec, &mut frame);
        Some(frame)
    } else {
        None
    }
}

impl AudioQueue {
    pub fn new(sample_rate: SG_SampleRate, sample_type: SG_SampleType) -> (r: AudioQueue)
        ensures
            r.sample_rate == sample_rate,
            buffer_type(r.buffer) == sample_type,
            pending_len(r.buffer) == 0,
    {
        AudioQueue {
            buffer: match sample_type {
                SG_SampleType::SG_SAMPLE_PCM8 => AudioBuffer::PCM8(Vec::new()),
                SG_SampleType::SG_SAMPLE_PCM16 => AudioBuffer::PCM16(Vec::new()),
                SG_SampleType::SG_SAMPLE_PCM32 => AudioBuffer::PCM32(Vec::new()),
                SG_SampleType::SG_SAMPLE_FLOAT32 => AudioBuffer::Float32(Vec::new()),
                SG_SampleType::SG_SAMPLE_FLOAT64 => AudioBuffer::Float64(Vec::new()),
            },
            sample_rate,
        }
    }

    /// Samples in one 10 ms frame at the queue's rate.
    pub fn buffer_capacity(&self) -> (r: usize)
        ensures
            r as nat == frame_capacity(self.sample_rate),
    {
        (self.sample_rate.to_rate() / (1000 / 10)) as usize
    }

    /// More than one frame's worth of samples is pending: a push brought over
    /// two quanta at once, and the excess waits for later pushes.
    pub fn has_backlog(&self) -> (r: bool)
        ensures
            r == (pending_len(self.buffer) > frame_capacity(self.sample_rate)),
    {
        let capacity = self.buffer_capacity();
        let n = match &self.buffer {
            AudioBuffer::PCM8(v) => v.len(),
            AudioBuffer::PCM16(v) => v.len(),
            AudioBuffer::PCM32(v) => v.len(),
            AudioBuffer::Float32(v) => v.len(),
            AudioBuffer::Float64(v) => v.len(),
        };
        n > capacity
    }

    pub fn add_pcm8(&mut self, buffer: &[i8]) -> (r: Result<Option<Vec<i8>>>)
        ensures
            final(self).sample_rate == old(self).sample_rate,
            pending_pcm8(old(self).buffer) is None ==> r == Err::<Option<Vec<i8>>, Error>(
                Error(SG_Error::SG_ERROR_INVALID_INPUT_TRAITS),
            ) && *final(self) == *old(self),
            pending_pcm8(old(self).buffer) matches Some(p) ==> r matches Ok(f) && {
                let m = push_model(p, buffer@, frame_capacity(old(self).sample_rate));
                pending_pcm8(final(self).buffer) == Some(m.0) && opt_view(f) == m.1
            },
    {
        let capacity = self.buffer_capacity();
        match &mut self.buffer {
            AudioBuffer::PCM8(vec) => Ok(add_data(vec, buffer, capacity)),
            _ => Err(Error::from(SG_Error::SG_ERROR_INVALID_INPUT_TRAITS)),
        }
    }

    pub fn add_pcm16(&mut self, buffer: &[i16]) -> (r: Result<Option<Vec<i16>>>)
        ensures
            final(self).sample_rate == old(self).sample_rate,
            pending_pcm16(old(self).buffer) is None ==> r == Err::<Option<Vec<i16>>, Error>(
                Error(SG_Error::SG_ERROR_INVALID_INPUT_TRAITS),
            ) && *final(self) == *old(self),
            pending_pcm16(old(self).buffer) matches Some(p) ==> r matches Ok(f) && {
                let m = push_model(p, buffer@, frame_capacity(old(self).sample_rate));
                pending_pcm16(final(self).buffer) == Some(m.0) && opt_view(f) == m.1
            },
    {
        let capacity = self.buffer_capacity();
        match &mut self.buffer {
            AudioBuffer::PCM16(vec) => Ok(add_data(vec, buffer, capacity)),
            _ => Err(Error::from(SG_Error::SG_ERROR_INVALID_INPUT_TRAITS)),
        }
    }

    pub fn add_pcm32(&mut self, buffer: &[i32]) -> (r: Result<Option<Vec<i32>>>)
        ensures
            final(self).sample_rate == old(self).sample_rate,
            pending_pcm32(old(self).buffer) is None ==> r == Err::<Option<Vec<i32>>, Error>(
                Error(SG_Error::SG_ERROR_INVALID_INPUT_TRAITS),
            ) && *final(self) == *old(self),
            pending_pcm32(old(self).buffer) matches Some(p) ==> r matches Ok(f) && {
                let m = push_model(p, buffer@, frame_capacity(old(self).sample_rate));
                pending_pcm32(final(self).buffer) == Some(m.0) && opt_view(f) == m.1
            },
    {
        let capacity = self.buffer_capacity();
        match &mut self.buffer {
            AudioBuffer::PCM32(vec) => Ok(add_data(vec, buffer, capacity)),
            _ => Err(Error::from(SG_Error::SG_ERROR_INVALID_INPUT_TRAITS)),
        }
    }

    pub fn add_float32(&mut self, buffer: &[u32]) -> (r: Result<Option<Vec<u32>>>)
        ensures
            final(self).sample_rate == old(self).sample_rate,
            pending_float32(old(self).buffer) is None ==> r == Err::<Option<Vec<u32>>, Error>(
                Error(SG_Error::SG_ERROR_INVALID_INPUT_TRAITS),
            ) && *final(self) == *old(self),
            pending_float32(old(self).buffer) matches Some(p) ==> r matches Ok(f) && {
                let m = push_model(p, buffer@, frame_capacity(old(self).sample_rate));
                pending_float32(final(self).buffer) == Some(m.0) && opt_view(f) == m.1
            },
    {
        let capacity = self.buffer_capacity();
        match &mut self.buffer {
            AudioBuffer::Float32(vec) => Ok(add_data(vec, buffer, capacity)),
            _ => Err(Error::from(SG_Error::SG_ERROR_INVALID_INPUT_TRAITS)),
        }
    }

    pub fn add_float64(&mut self, buffer: &[u64]) -> (r: Result<Option<Vec<u64>>>)
        ensures
            final(self).sample_rate == old(self).sample_rate,
            pending_float64(old(self).buffer) is None ==> r == Err::<Option<Vec<u64>>, Error>(
                Error(SG_Error::SG_ERROR_INVALID_INPUT_TRAITS),
            ) && *final(self) == *old(self),
            pending_float64(old(self).buffer) matches Some(p) ==> r matches Ok(f) && {
                let m = push_model(p, buffer@, frame_capacity(old(self).sample_rate));
                pending_float64(final(self).buffer) == Some(m.0) && opt_view(f) == m.1
            },
    {
        let capacity = self.buffer_capacity();
        match &mut self.buffer {
            AudioBuffer::Float64(vec) => Ok(add_data(vec, buffer, capacity)),
            _ => Err(Error::from(SG_Error::SG_ERROR_INVALID_INPUT_TRAITS)),
        }
    }
}

/// Pushes whose lengths add up to exactly one frame, however they are split,
/// emit exactly one frame, holding every sample in order, and leave nothing pending.
pub proof fn lemma_exact_capacity_one_frame<T>(parts: Seq<Seq<T>>, cap: nat)
    requires
        cap > 0,
        parts.flatten().len() == cap,
    ensures
        run_pushes(Seq::<T>::empty(), parts, cap) == (Seq::<T>::empty(), seq![parts.flatten()]),
{
    lemma_fill_to_capacity(Seq::<T>::empty(), parts, cap);
    assert(Seq::<T>::empty() + parts.flatten() =~= parts.flatten());
}

/// Pushes whose lengths add up to exactly one frame, the last of them non-empty,
/// taken call by call: each push before the last emits nothing and leaves every
/// sample so far pending, in order; the last push emits that whole frame and
/// leaves nothing pending.
pub proof fn lemma_split_pushes_frame_on_last<T>(parts: Seq<Seq<T>>, cap: nat)
    requires
        cap > 0,
        parts.len() > 0,
        parts.flatten().len() == cap,
        parts.last().len() > 0,
    ensures
        forall|k: int|
            0 <= k < parts.len() ==> #[trigger] run_pushes(Seq::<T>::empty(), parts.take(k), cap)
                == (parts.take(k).flatten(), Seq::<Seq<T>>::empty()),
        push_model(parts.drop_last().flatten(), parts.last(), cap) == (
            Seq::<T>::empty(),
            Some(parts.flatten()),
        ),
{
    assert forall|k: int| 0 <= k < parts.len() implies #[trigger] run_pushes(
        Seq::<T>::empty(),
        parts.take(k),
        cap,
    ) == (parts.take(k).flatten(), Seq::<Seq<T>>::empty()) by {
        vstd::seq_lib::lemma_flatten_concat(parts.take(k), parts.skip(k));
        assert(parts.take(k) + parts.skip(k) =~= parts);
        assert(parts.skip(k)[parts.len() - 1 - k] == parts.last());
        parts.skip(k).lemma_flatten_length_ge_single_element_length(parts.len() - 1 - k);
        parts.skip(k).lemma_flatten_and_flatten_alt_are_equivalent();
        lemma_short_pushes_keep_all(parts.take(k), cap);
    }
    let single = seq![parts.last()];
    vstd::seq_lib::lemma_flatten_concat(parts.drop_last(), single);
    assert(parts.drop_last() + single =~= parts);
    single.lemma_flatten_one_element();
    let all = parts.drop_last().flatten() + parts.last();
    assert(all == parts.flatten());
    assert(all.subrange(0, cap as int) =~= all);
    assert(all.subrange(cap as int, all.len() as int) =~= Seq::<T>::empty());
}

/// Pushes that add up to less than one frame emit nothing and keep every sample pending, in order.
pub proof fn lemma_short_pushes_keep_all<T>(parts: Seq<Seq<T>>, cap: nat)
    requires
        parts.flatten().len() < cap,
    ensures
        run_pushes(Seq::<T>::empty(), parts, cap) == (parts.flatten(), Seq::<Seq<T>>::empty()),
{
    lemma_below_capacity(Seq::<T>::empty(), parts, cap);
    assert(Seq::<T>::empty() + parts.flatten() =~= parts.flatten());
}

proof fn lemma_below_capacity<T>(pending: Seq<T>, parts: Seq<Seq<T>>, cap: nat)
    requires
        pending.len() + parts.flatten().len() < cap,
    ensures
        run_pushes(pending, parts, cap) == (pending + parts.flatten(), Seq::<Seq<T>>::empty()),
    decreases parts.len(),
{
    if parts.len() == 0 {
        assert(pending + parts.flatten() =~= pending);
    } else {
        let next = pending + parts[0];
        assert(parts.flatten() == parts[0] + parts.drop_first().flatten());
        lemma_below_capacity(next, parts.drop_first(), cap);
        assert(next + parts.drop_first().flatten() =~= pending + parts.flatten());
    }
}

proof fn lemma_empty_parts<T>(parts: Seq<Seq<T>>, cap: nat)
    requires
        cap > 0,
        parts.flatten().len() == 0,
    ensures
        run_pushes(Seq::<T>::empty(), parts, cap) == (Seq::<T>::empty(), Seq::<Seq<T>>::empty()),
{
    lemma_below_capacity(Seq::<T>::empty(), parts, cap);
    assert(Seq::<T>::empty() + parts.flatten() =~= Seq::<T>::empty());
}

proof fn lemma_fill_to_capacity<T>(pending: Seq<T>, parts: Seq<Seq<T>>, cap: nat)
    requires
        pending.len() < cap,
        pending.len() + parts.flatten().len() == cap,
    ensures
        run_pushes(pending, parts, cap) == (Seq::<T>::empty(), seq![pending + parts.flatten()]),
    decreases parts.len(),
{
    assert(parts.len() > 0);
    let next = pending + parts[0];
    assert(parts.flatten() == parts[0] + parts.drop_first().flatten());
    assert(next + parts.drop_first().flatten() =~= pending + parts.flatten());
    if next.len() == cap {
        assert(next.subrange(0, cap as int) =~= next);
        assert(next.subrange(cap as int, next.len() as int) =~= Seq::<T>::empty());
        lemma_empty_parts(parts.drop_first(), cap);
        assert(parts.drop_first().flatten() =~= Seq::<T>::empty());
        assert(seq![next] + Seq::<Seq<T>>::empty() =~= seq![pending + parts.flatten()]);
    } else {
        lemma_fill_to_capacity(next, parts.drop_first(), cap);
    }
}

} // verus!
