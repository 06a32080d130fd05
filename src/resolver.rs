//! Binds a renderer's morph-weight slots to catalog channels by name, and
//! writes extracted weights into the bound slots.
use crate::catalog::AnimationNodeInfo;
use crate::quantizer::opt_view;
use crate::session::AnimationFrame;
use vstd::prelude::*;
use vstd::string::*;

verus! {

/// Name of the node whose channels drive the renderer's morph slots.
pub open spec fn rig_node_name() -> Seq<char> {
    "blendBoard"@
}

/// Suffix a morph slot carries after its channel name.
pub open spec fn pose_suffix() -> Seq<char> {
    "_pose"@
}

/// `i` is the first catalog node that carries the rig's name.
pub open spec fn is_first_rig_node(nodes: Seq<AnimationNodeInfo>, i: int) -> bool {
    &&& 0 <= i < nodes.len()
    &&& nodes[i].name@ == rig_node_name()
    &&& forall|k: int| 0 <= k < i ==> #[trigger] nodes[k].name@ != rig_node_name()
}

/// `j` is the first channel whose name, with the pose suffix, is the slot name.
pub open spec fn is_first_pose_channel(channels: Seq<String>, slot: Seq<char>, j: int) -> bool {
    &&& 0 <= j < channels.len()
    &&& channels[j]@ + pose_suffix() == slot
    &&& forall|k: int| 0 <= k < j ==> #[trigger] channels[k]@ + pose_suffix() != slot
}

/// `b` is the binding of the slot named `slot`: the first rig node and, within it,
/// the first matching channel; `None` when either lookup fails.
pub open spec fn is_binding(nodes: Seq<AnimationNodeInfo>, slot: Seq<char>, b: Option<(usize, usize)>) -> bool {
    match b {
        Some((i, j)) => is_first_rig_node(nodes, i as int) && is_first_pose_channel(
            nodes[i as int].channel_names@,
            slot,
            j as int,
        ),
        None => forall|i: int|
            #![trigger is_first_rig_node(nodes, i)]
            is_first_rig_node(nodes, i) ==> forall|j: int|
                0 <= j < nodes[i].channel_names@.len() ==> #[trigger] nodes[i].channel_names@[j]@
                    + pose_suffix() != slot,
    }
}

fn find_rig_node(nodes: &Vec<AnimationNodeInfo>) -> (r: Option<usize>)
    ensures
        r matches Some(i) ==> is_first_rig_node(nodes@, i as int),
        r is None ==> forall|i: int| 0 <= i < nodes@.len() ==> #[trigger] nodes@[i].name@ != rig_node_name(),
{
    let rig = "blendBoard".to_owned();
    let mut i: usize = 0;
    while i < nodes.len()
        invariant
            i <= nodes@.len(),
            rig@ == rig_node_name(),
            forall|k: int| 0 <= k < i ==> #[trigger] nodes@[k].name@ != rig_node_name(),
        decreases nodes@.len() - i,
    {
        if nodes[i].name == rig {
            return Some(i);
        }
        i = i + 1;
    }
    None
}

fn find_pose_channel(channels: &Vec<String>, slot: &String) -> (r: Option<usize>)
    ensures
        r matches Some(j) ==> is_first_pose_channel(channels@, slot@, j as int),
        r is None ==> forall|j: int| 0 <= j < channels@.len() ==> #[trigger] channels@[j]@ + pose_suffix() != slot@,
{
    let mut j: usize = 0;
    while j < channels.len()
        invariant
            j <= channels@.len(),
            forall|k: int| 0 <= k < j ==> #[trigger] channels@[k]@ + pose_suffix() != slot@,
        decreases channels@.len() - j,
    {
        let pose = channels[j].clone().concat("_pose");
        if pose == *slot {
            return Some(j);
        }
        j = j + 1;
    }
    None
}

/// Resolves every renderer slot name to its catalog binding.
pub fn resolve_bindings(nodes: &Vec<AnimationNodeInfo>, slot_names: &Vec<String>) -> (r: Vec<Option<(usize, usize)>>)
    ensures
        r@.len() == slot_names@.len(),
        forall|k: int| 0 <= k < r@.len() ==> is_binding(nodes@, slot_names@[k]@, #[trigger] r@[k]),
{
    let rig = find_rig_node(nodes);
    let mut r: Vec<Option<(usize, usize)>> = Vec::new();
    let mut k: usize = 0;
    while k < slot_names.len()
        invariant
            k <= slot_names@.len(),
            r@.len() == k,
            rig matches Some(i) ==> is_first_rig_node(nodes@, i as int),
            rig is None ==> forall|i: int| 0 <= i < nodes@.len() ==> #[trigger] nodes@[i].name@ != rig_node_name(),
            forall|m: int| 0 <= m < k ==> is_binding(nodes@, slot_names@[m]@, #[trigger] r@[m]),
        decreases slot_names@.len() - k,
    {
        let b = match rig {
            Some(i) => match find_pose_channel(&nodes[i].channel_names, &slot_names[k]) {
                Some(j) => Some((i, j)),
                None => {
                    proof {
                        assert forall|i2: int| #[trigger] is_first_rig_node(nodes@, i2) implies i2 == i by {
                            if i2 < i {
                                assert(nodes@[i2].name@ != rig_node_name());
                            } else if i2 > i {
                                assert(nodes@[i as int].name@ != rig_node_name());
                            }
                        }
                    }
                    None
                },
            },
            None => None,
        };
        r.push(b);
        k = k + 1;
    }
    r
}

/// The weight of channel `j` of node `i` in a frame, when the frame has one.
pub open spec fn frame_weight(frame: AnimationFrame, i: int, j: int) -> Option<u32> {
    if 0 <= i < frame.nodes@.len() {
        match opt_view(frame.nodes@[i]) {
            Some(w) => if 0 <= j < w.len() {
                Some(w[j])
            } else {
                None
            },
            None => None,
        }
    } else {
        None
    }
}

/// The value slot `k` holds after a tick: its bound weight when the frame has
/// one, its previous value otherwise.
pub open spec fn slot_after(bindings: Seq<Option<(usize, usize)>>, frame: AnimationFrame, previous: Seq<u32>, k: int) -> u32 {
    if 0 <= k < bindings.len() {
        match bindings[k] {
            Some((i, j)) => match frame_weight(frame, i as int, j as int) {
                Some(w) => w,
                None => previous[k],
            },
            None => previous[k],
        }
    } else {
        previous[k]
    }
}

/// Writes the frame's bound weights into the renderer's slots; other slots keep their value.
pub fn apply_bindings(bindings: &Vec<Option<(usize, usize)>>, frame: &AnimationFrame, weights: &mut Vec<u32>)
    ensures
        final(weights)@.len() == old(weights)@.len(),
        forall|k: int| 0 <= k < final(weights)@.len() ==> #[trigger] final(weights)@[k] == slot_after(bindings@, *frame, old(weights)@, k),
{
    let ghost previous = weights@;
    let mut k: usize = 0;
    while k < weights.len()
        invariant
            k <= weights@.len() == previous.len(),
            forall|m: int| 0 <= m < k ==> #[trigger] weights@[m] == slot_after(bindings@, *frame, previous, m),
            forall|m: int| k <= m < weights@.len() ==> #[trigger] weights@[m] == previous[m],
        decreases previous.len() - k,
    {
        if k < bindings.len() {
            if let Some((i, j)) = bindings[k] {
                if i < frame.nodes.len() {
                    if let Some(w) = &frame.nodes[i] {
                        if j < w.len() {
                            weights.set(k, w[j]);
                        }
                    }
                }
            }
        }
        k = k + 1;
    }
}

/// The morph bindings of one pairing of catalog and slot list: resolved on
/// first use, then kept unchanged (an unresolved slot stays unresolved).
#[derive(Debug)]
pub struct MorphBinding {
    bindings: Option<Vec<Option<(usize, usize)>>>,
}

impl MorphBinding {
    pub closed spec fn bindings_spec(&self) -> Option<Seq<Option<(usize, usize)>>> {
        match self.bindings {
            Some(b) => Some(b@),
            None => None,
        }
    }

    pub fn new() -> (r: MorphBinding)
        ensures
            r.bindings_spec() is None,
    {
        MorphBinding { bindings: None }
    }

    pub fn is_resolved(&self) -> (r: bool)
        ensures
            r == self.bindings_spec() is Some,
    {
        self.bindings.is_some()
    }

    /// Resolves the slots against the catalog unless that was done already.
    pub fn resolve_once(&mut self, nodes: &Vec<AnimationNodeInfo>, slot_names: &Vec<String>)
        ensures
            old(self).bindings_spec() is Some ==> final(self).bindings_spec() == old(
                self,
            ).bindings_spec(),
            old(self).bindings_spec() is None ==> (final(self).bindings_spec() matches Some(b)
                && b.len() == slot_names@.len() && forall|k: int|
                0 <= k < b.len() ==> is_binding(nodes@, slot_names@[k]@, #[trigger] b[k])),
    {
        if self.bindings.is_none() {
            self.bindings = Some(resolve_bindings(nodes, slot_names));
        }
    }

    /// Indices of the slots that resolution left without a binding, in order.
    pub fn unresolved_slots(&self) -> (r: Vec<usize>)
        ensures
            self.bindings_spec() is None ==> r@.len() == 0,
            self.bindings_spec() matches Some(b) ==> (forall|k: int|
                0 <= k < r@.len() ==> #[trigger] r@[k] < b.len() && b[r@[k] as int] is None)
                && (forall|k: int, l: int| 0 <= k < l < r@.len() ==> r@[k] < r@[l]) && (forall|
                i: int,
            |
                0 <= i < b.len() && #[trigger] b[i] is None ==> r@.contains(i as usize)),
    {
        let mut r: Vec<usize> = Vec::new();
        match &self.bindings {
            None => {},
            Some(b) => {
                let mut i: usize = 0;
                while i < b.len()
                    invariant
                        i <= b@.len(),
                        forall|k: int| 0 <= k < r@.len() ==> #[trigger] r@[k] < i && b@[r@[k] as int] is None,
                        forall|k: int, l: int| 0 <= k < l < r@.len() ==> r@[k] < r@[l],
                        forall|j: int| 0 <= j < i && #[trigger] b@[j] is None ==> r@.contains(j as usize),
                    decreases b@.len() - i,
                {
                    let ghost before = r@;
                    if b[i].is_none() {
                        r.push(i);
                        assert(r@[r@.len() - 1] == i);
                    }
                    assert forall|j: int| 0 <= j < i + 1 && #[trigger] b@[j] is None implies r@.contains(
                        j as usize,
                    ) by {
                        if j < i {
                            let k = choose|k: int| 0 <= k < before.len() && before[k] == j as usize;
                            assert(r@[k] == j as usize);
                        } else {
                            assert(r@[r@.len() - 1] == i);
                        }
                    }
                    i = i + 1;
                }
            },
        }
        r
    }

    /// Writes a frame's bound weights into the slots; before resolution nothing is written.
    pub fn apply(&self, frame: &AnimationFrame, weights: &mut Vec<u32>)
        ensures
            self.bindings_spec() is None ==> final(weights)@ == old(weights)@,
            self.bindings_spec() matches Some(b) ==> (final(weights)@.len() == old(weights)@.len()
                && forall|k: int|
                0 <= k < final(weights)@.len() ==> #[trigger] final(weights)@[k] == slot_after(
                    b,
                    *frame,
                    old(weights)@,
                    k,
                )),
    {
        match &self.bindings {
            Some(b) => apply_bindings(b, frame, weights),
            None => {},
        }
    }
}

} // verus!
