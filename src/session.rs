//! The engine session's own state: negotiated formats, the catalog, the
//! quantizer, and the assembly of extracted animation frames.
use crate::catalog::AnimationNodeInfo;
use crate::error::{Error, Result, SG_Error};
use crate::format::{frame_capacity, SG_InputTraits, SG_OutputTraits, SG_SampleRate};
use crate::quantizer::{
    buffer_type, opt_view, pending_float32, pending_float64, pending_len, pending_pcm16,
    pending_pcm32, pending_pcm8, push_model, AudioQueue,
};
use vstd::prelude::*;

verus! {

/// Weights of one extracted tick, indexed by catalog node. A node without
/// channels is absent (`None`); a node the engine gave no data for has no weights.
#[derive(Debug)]
pub struct AnimationFrame {
    pub nodes: Vec<Option<Vec<u32>>>,
}

/// What the frame holds for catalog node `i`, given the engine's copied output for it.
pub open spec fn node_frame(node: AnimationNodeInfo, output: Option<Vec<u32>>) -> Option<Seq<u32>> {
    if node.channel_count == 0 {
        None
    } else {
        match output {
            Some(w) => Some(w@),
            None => Some(Seq::empty()),
        }
    }
}

/// A live session, apart from the engine handle: formats, catalog and pending audio.
#[derive(Debug)]
pub struct Player {
    input_traits: SG_InputTraits,
    output_traits: SG_OutputTraits,
    nodes: Vec<AnimationNodeInfo>,
    queue: AudioQueue,
}

impl Player {
    pub closed spec fn input_spec(&self) -> SG_InputTraits {
        self.input_traits
    }

    pub closed spec fn output_spec(&self) -> SG_OutputTraits {
        self.output_traits
    }

    pub closed spec fn nodes_spec(&self) -> Seq<AnimationNodeInfo> {
        self.nodes@
    }

    pub closed spec fn queue_spec(&self) -> &AudioQueue {
        &self.queue
    }

    /// The quantizer runs at the session's rate, on the session's sample type.
    pub open spec fn wf(&self) -> bool {
        &&& self.queue_spec().sample_rate == self.input_spec().sample_rate
        &&& buffer_type(self.queue_spec().buffer) == self.input_spec().sample_type
    }

    pub open spec fn capacity(&self) -> nat {
        frame_capacity(self.input_spec().sample_rate)
    }

    pub fn new(
        input_traits: SG_InputTraits,
        output_traits: SG_OutputTraits,
        nodes: Vec<AnimationNodeInfo>,
    ) -> (r: Player)
        ensures
            r.wf(),
            r.input_spec() == input_traits,
            r.output_spec() == output_traits,
            r.nodes_spec() == nodes@,
            pending_len(r.queue_spec().buffer) == 0,
    {
        Player {
            input_traits,
            output_traits,
            nodes,
            queue: AudioQueue::new(input_traits.sample_rate, input_traits.sample_type),
        }
    }

    pub fn add_input_pcm8(&mut self, buffer: &[i8]) -> (r: Result<Option<Vec<i8>>>)
        requires
            old(self).wf(),
        ensures
            final(self).wf(),
            final(self).input_spec() == old(self).input_spec(),
            final(self).output_spec() == old(self).output_spec(),
            final(self).nodes_spec() == old(self).nodes_spec(),
            pending_pcm8(old(self).queue_spec().buffer) is None ==> r == Err::<
                Option<Vec<i8>>,
                Error,
            >(Error(SG_Error::SG_ERROR_INVALID_INPUT_TRAITS)) && final(self).queue_spec()
                == old(self).queue_spec(),
            pending_pcm8(old(self).queue_spec().buffer) matches Some(p) ==> r matches Ok(f) && {
                let m = push_model(p, buffer@, old(self).capacity());
                pending_pcm8(final(self).queue_spec().buffer) == Some(m.0) && opt_view(f) == m.1
            },
    {
        self.queue.add_pcm8(buffer)
    }

    pub fn add_input_pcm16(&mut self, buffer: &[i16]) -> (r: Result<Option<Vec<i16>>>)
        requires
            old(self).wf(),
        ensures
            final(self).wf(),
            final(self).input_spec() == old(self).input_spec(),
            final(self).output_spec() == old(self).output_spec(),
            final(self).nodes_spec() == old(self).nodes_spec(),
            pending_pcm16(old(self).queue_spec().buffer) is None ==> r == Err::<
                Option<Vec<i16>>,
                Error,
            >(Error(SG_Error::SG_ERROR_INVALID_INPUT_TRAITS)) && final(self).queue_spec()
                == old(self).queue_spec(),
            pending_pcm16(old(self).queue_spec().buffer) matches Some(p) ==> r matches Ok(f) && {
                let m = push_model(p, buffer@, old(self).capacity());
                pending_pcm16(final(self).queue_spec().buffer) == Some(m.0) && opt_view(f) == m.1
            },
    {
        self.queue.add_pcm16(buffer)
    }

    pub fn add_input_pcm32(&mut self, buffer: &[i32]) -> (r: Result<Option<Vec<i32>>>)
        requires
            old(self).wf(),
        ensures
            final(self).wf(),
            final(self).input_spec() == old(self).input_spec(),
            final(self).output_spec() == old(self).output_spec(),
            final(self).nodes_spec() == old(self).nodes_spec(),
            pending_pcm32(old(self).queue_spec().buffer) is None ==> r == Err::<
                Option<Vec<i32>>,
                Error,
            >(Error(SG_Error::SG_ERROR_INVALID_INPUT_TRAITS)) && final(self).queue_spec()
                == old(self).queue_spec(),
            pending_pcm32(old(self).queue_spec().buffer) matches Some(p) ==> r matches Ok(f) && {
                let m = push_model(p, buffer@, old(self).capacity());
                pending_pcm32(final(self).queue_spec().buffer) == Some(m.0) && opt_view(f) == m.1
            },
    {
        self.queue.add_pcm32(buffer)
    }

    pub fn add_input_float32(&mut self, buffer: &[u32]) -> (r: Result<Option<Vec<u32>>>)
        requires
            old(self).wf(),
        ensures
            final(self).wf(),
            final(self).input_spec() == old(self).input_spec(),
            final(self).output_spec() == old(self).output_spec(),
            final(self).nodes_spec() == old(self).nodes_spec(),
            pending_float32(old(self).queue_spec().buffer) is None ==> r == Err::<
                Option<Vec<u32>>,
                Error,
            >(Error(SG_Error::SG_ERROR_INVALID_INPUT_TRAITS)) && final(self).queue_spec()
                == old(self).queue_spec(),
            pending_float32(old(self).queue_spec().buffer) matches Some(p) ==> r matches Ok(f) && {
                let m = push_model(p, buffer@, old(self).capacity());
                pending_float32(final(self).queue_spec().buffer) == Some(m.0) && opt_view(f) == m.1
            },
    {
        self.queue.add_float32(buffer)
    }

    pub fn add_input_float64(&mut self, buffer: &[u64]) -> (r: Result<Option<Vec<u64>>>)
        requires
            old(self).wf(),
        ensures
            final(self).wf(),
            final(self).input_spec() == old(self).input_spec(),
            final(self).output_spec() == old(self).output_spec(),
            final(self).nodes_spec() == old(self).nodes_spec(),
            pending_float64(old(self).queue_spec().buffer) is None ==> r == Err::<
                Option<Vec<u64>>,
                Error,
            >(Error(SG_Error::SG_ERROR_INVALID_INPUT_TRAITS)) && final(self).queue_spec()
                == old(self).queue_spec(),
            pending_float64(old(self).queue_spec().buffer) matches Some(p) ==> r matches Ok(f) && {
                let m = push_model(p, buffer@, old(self).capacity());
                pending_float64(final(self).queue_spec().buffer) == Some(m.0) && opt_view(f) == m.1
            },
    {
        self.queue.add_float64(buffer)
    }

    /// More than one frame's worth of samples is pending.
    pub fn has_backlog(&self) -> (r: bool)
        ensures
            r == (pending_len(self.queue_spec().buffer) > frame_capacity(
                self.queue_spec().sample_rate,
            )),
    {
        self.queue.has_backlog()
    }

    /// Indices of the catalog nodes the engine is asked for output: those with channels.
    pub fn nodes_to_query(&self) -> (r: Vec<usize>)
        ensures
            forall|k: int| 0 <= k < r@.len() ==> #[trigger] r@[k] < self.nodes_spec().len()
                && self.nodes_spec()[r@[k] as int].channel_count != 0,
            forall|k: int, l: int| 0 <= k < l < r@.len() ==> r@[k] < r@[l],
            forall|i: int|
                0 <= i < self.nodes_spec().len() && #[trigger] self.nodes_spec()[i].channel_count
                    != 0 ==> r@.contains(i as usize),
    {
        let mut r: Vec<usize> = Vec::new();
        let mut i: usize = 0;
        while i < self.nodes.len()
            invariant
                i <= self.nodes@.len(),
                forall|k: int| 0 <= k < r@.len() ==> #[trigger] r@[k] < i
                    && self.nodes@[r@[k] as int].channel_count != 0,
                forall|k: int, l: int| 0 <= k < l < r@.len() ==> r@[k] < r@[l],
                forall|j: int|
                    0 <= j < i && #[trigger] self.nodes@[j].channel_count != 0 ==> r@.contains(
                        j as usize,
                    ),
            decreases self.nodes@.len() - i,
        {
            let ghost before = r@;
            if self.nodes[i].channel_count != 0 {
                r.push(i);
                assert(r@[r@.len() - 1] == i);
            }
            assert forall|j: int|
                0 <= j < i + 1 && #[trigger] self.nodes@[j].channel_count != 0 implies r@.contains(
                j as usize,
            ) by {
                if j < i {
                    let k = choose|k: int| 0 <= k < before.len() && before[k] == j as usize;
                    assert(r@[k] == j as usize);
                } else {
                    assert(r@[r@.len() - 1] == i);
                }
            }
            i = i + 1;
        }
        r
    }

    /// Assembles one tick's frame from the engine's output, copied per catalog node
    /// (`None` where the engine gave no data or was not asked).
    pub fn frame_from_outputs(&self, outputs: Vec<Option<Vec<u32>>>) -> (r: AnimationFrame)
        requires
            outputs@.len() == self.nodes_spec().len(),
        ensures
            r.nodes@.len() == self.nodes_spec().len(),
            forall|i: int|
                0 <= i < r.nodes@.len() ==> opt_view(#[trigger] r.nodes@[i]) == node_frame(
                    self.nodes_spec()[i],
                    outputs@[i],
                ),
    {
        let ghost given = outputs@;
        let mut outputs = outputs;
        let mut rev: Vec<Option<Vec<u32>>> = Vec::new();
        let n = self.nodes.len();
        let mut i: usize = n;
        while i > 0
            invariant
                i <= n == self.nodes@.len() == given.len(),
                outputs@ == given.subrange(0, i as int),
                rev@.len() == n - i,
                forall|k: int|
                    0 <= k < rev@.len() ==> opt_view(#[trigger] rev@[k]) == node_frame(
                        self.nodes@[n - 1 - k],
                        given[n - 1 - k],
                    ),
            decreases i,
        {
            let out = outputs.pop().unwrap();
            i = i - 1;
            assert(outputs@ =~= given.subrange(0, i as int));
            let entry = if self.nodes[i].channel_count == 0 {
                None
            } else {
                match out {
                    Some(w) => Some(w),
                    None => Some(Vec::new()),
                }
            };
            rev.push(entry);
        }
        let mut nodes: Vec<Option<Vec<u32>>> = Vec::new();
        let ghost built = rev@;
        while rev.len() > 0
            invariant
                rev@ == built.subrange(0, rev@.len() as int),
                built.len() == n == self.nodes@.len() == given.len(),
                nodes@.len() + rev@.len() == n,
                forall|k: int|
                    0 <= k < built.len() ==> opt_view(#[trigger] built[k]) == node_frame(
                        self.nodes@[n - 1 - k],
                        given[n - 1 - k],
                    ),
                forall|k: int| 0 <= k < nodes@.len() ==> #[trigger] nodes@[k] == built[n - 1 - k],
            decreases rev@.len(),
        {
            let e = rev.pop().unwrap();
            nodes.push(e);
            assert(rev@ =~= built.subrange(0, rev@.len() as int));
        }
        AnimationFrame { nodes }
    }

    /// Node names with their channel names, in catalog order.
    pub fn processed_names(&self) -> (r: Vec<(String, Vec<String>)>)
        ensures
            r@.len() == self.nodes_spec().len(),
            forall|i: int|
                0 <= i < r@.len() ==> (#[trigger] r@[i]).0@ == self.nodes_spec()[i].name@
                    && r@[i].1@ == self.nodes_spec()[i].channel_names@,
    {
        let mut r: Vec<(String, Vec<String>)> = Vec::new();
        let mut i: usize = 0;
        while i < self.nodes.len()
            invariant
                i <= self.nodes@.len(),
                r@.len() == i,
                forall|k: int|
                    0 <= k < i ==> (#[trigger] r@[k]).0@ == self.nodes@[k].name@ && r@[k].1@
                        == self.nodes@[k].channel_names@,
            decreases self.nodes@.len() - i,
        {
            let node = &self.nodes[i];
            r.push((node.name.clone(), copy_names(&node.channel_names)));
            i = i + 1;
        }
        r
    }

    pub fn animation_info(&self) -> (r: &Vec<AnimationNodeInfo>)
        ensures
            r@ == self.nodes_spec(),
    {
        &self.nodes
    }

    pub fn sample_rate(&self) -> (r: SG_SampleRate)
        ensures
            r == self.input_spec().sample_rate,
    {
        self.input_traits.sample_rate
    }
}

fn copy_names(names: &Vec<String>) -> (r: Vec<String>)
    ensures
        r@ == names@,
{
    let mut r: Vec<String> = Vec::new();
    let mut i: usize = 0;
    while i < names.len()
        invariant
            i <= names@.len(),
            r@ == names@.subrange(0, i as int),
        decreases names@.len() - i,
    {
        r.push(names[i].clone());
        i = i + 1;
        assert(r@ =~= names@.subrange(0, i as int));
    }
    assert(names@.subrange(0, names@.len() as int) =~= names@);
    r
}

} // verus!
