//! The channel catalog: node and channel names captured once when a session opens.
use crate::error::{Error, Result, SG_Error};
use crate::format::SG_OutputTraits;
use vstd::prelude::*;
use vstd::utf8::*;

verus! {

/// Index of the first zero byte of `b` at or after `i`, or `b.len()` when there is none.
pub open spec fn first_nul_from(b: Seq<u8>, i: int) -> int
    decreases b.len() - i,
{
    if i < 0 || i >= b.len() {
        b.len() as int
    } else if b[i] == 0 {
        i
    } else {
        first_nul_from(b, i + 1)
    }
}

/// The text of a zero-terminated buffer: the bytes before the first zero, when
/// there is a zero and those bytes are valid UTF-8.
pub open spec fn c_text(b: Seq<u8>) -> Option<Seq<char>> {
    let k = first_nul_from(b, 0);
    if k < b.len() && valid_utf8(b.subrange(0, k)) {
        Some(decode_utf8(b.subrange(0, k)))
    } else {
        None
    }
}

pub open spec fn opt_text(o: Option<String>) -> Option<Seq<char>> {
    match o {
        Some(s) => Some(s@),
        None => None,
    }
}

/// Relies on std::str::from_utf8: it succeeds exactly on valid UTF-8, and then
/// holds the characters the bytes encode.
#[verifier::external_body]
fn utf8_text(bytes: &[u8]) -> (r: Option<String>)
    ensures
        r is Some <==> valid_utf8(bytes@),
        r matches Some(s) ==> s@ == decode_utf8(bytes@),
{
    std::str::from_utf8(bytes).ok().map(|s| s.to_owned())
}

/// Decodes a zero-terminated buffer as text.
pub fn decode_c_text(bytes: &[u8]) -> (r: Option<String>)
    ensures
        opt_text(r) == c_text(bytes@),
{
    let mut prefix: Vec<u8> = Vec::new();
    let mut i: usize = 0;
    while i < bytes.len() && bytes[i] != 0
        invariant
            i <= bytes@.len(),
            prefix@ == bytes@.subrange(0, i as int),
            first_nul_from(bytes@, 0) == first_nul_from(bytes@, i as int),
        decreases bytes@.len() - i,
    {
        prefix.push(bytes[i]);
        i = i + 1;
        assert(prefix@ =~= bytes@.subrange(0, i as int));
    }
    if i == bytes.len() {
        None
    } else {
        utf8_text(prefix.as_slice())
    }
}

/// Text of a node name buffer; a buffer that does not decode reads "Unknown".
pub open spec fn node_name_text(b: Seq<u8>) -> Seq<char> {
    match c_text(b) {
        Some(t) => t,
        None => "Unknown"@,
    }
}

/// Decodes a node name buffer, falling back to "Unknown".
pub fn node_name(bytes: &[u8]) -> (r: String)
    ensures
        r@ == node_name_text(bytes@),
{
    match decode_c_text(bytes) {
        Some(s) => s,
        None => {
            proof {
                reveal_strlit("Unknown");
            }
            "Unknown".to_owned()
        },
    }
}

/// Decodes a channel name buffer; one without a terminator or with invalid
/// UTF-8 is an invalid channel.
pub fn decode_channel_name(buffer: &[u8]) -> (r: Result<String>)
    ensures
        c_text(buffer@) matches Some(t) ==> r matches Ok(s) && s@ == t,
        c_text(buffer@) is None ==> r == Err::<String, Error>(
            Error(SG_Error::SG_ERROR_INVALID_ANIMATION_CHANNEL),
        ),
{
    match decode_c_text(buffer) {
        Some(s) => Ok(s),
        None => Err(Error::from(SG_Error::SG_ERROR_INVALID_ANIMATION_CHANNEL)),
    }
}

/// One animation node of the catalog: its name and its channels in engine order.
#[derive(Debug)]
pub struct AnimationNodeInfo {
    pub name: String,
    pub channel_count: u32,
    pub channel_names: Vec<String>,
}

pub open spec fn node_complete(n: AnimationNodeInfo) -> bool {
    n.channel_names@.len() == n.channel_count
}

/// The next engine query that building the catalog needs.
#[derive(Debug, Clone, Copy, PartialEq, Eq, Structural)]
pub enum CatalogQuery {
    /// Name and channel count of the node at this index.
    NodeInfo(u32),
    /// Name of a channel: node index, channel index.
    ChannelName(u32, u32),
    /// Every node and channel is known.
    Done,
}

/// Builds the catalog from the engine's answers, one query at a time.
#[derive(Debug)]
pub struct CatalogBuilder {
    node_count: u32,
    nodes: Vec<AnimationNodeInfo>,
}

impl CatalogBuilder {
    pub closed spec fn node_count_spec(&self) -> nat {
        self.node_count as nat
    }

    pub closed spec fn nodes_spec(&self) -> Seq<AnimationNodeInfo> {
        self.nodes@
    }

    /// All nodes but the last are complete, and none has more names than channels.
    pub open spec fn wf(&self) -> bool {
        &&& self.nodes_spec().len() <= self.node_count_spec()
        &&& forall|i: int|
            0 <= i < self.nodes_spec().len() - 1 ==> #[trigger] node_complete(self.nodes_spec()[i])
        &&& forall|i: int|
            0 <= i < self.nodes_spec().len() ==> #[trigger] self.nodes_spec()[i].channel_names@.len()
                <= self.nodes_spec()[i].channel_count
    }

    pub open spec fn query_spec(&self) -> CatalogQuery {
        let n = self.nodes_spec().len();
        if n > 0 && !node_complete(self.nodes_spec()[n - 1]) {
            CatalogQuery::ChannelName(
                (n - 1) as u32,
                self.nodes_spec()[n - 1].channel_names@.len() as u32,
            )
        } else if n < self.node_count_spec() {
            CatalogQuery::NodeInfo(n as u32)
        } else {
            CatalogQuery::Done
        }
    }

    /// Starts a catalog for the reported output format; a format with no node is refused.
    pub fn start(output: SG_OutputTraits) -> (r: Result<CatalogBuilder>)
        ensures
            output.anim_node_count == 0 ==> r == Err::<CatalogBuilder, Error>(
                Error(SG_Error::SG_ERROR_INVALID_ANIMATION_NODE),
            ),
            output.anim_node_count != 0 ==> (r matches Ok(b) && b.wf() && b.node_count_spec()
                == output.anim_node_count && b.nodes_spec().len() == 0),
    {
        if output.anim_node_count == 0 {
            Err(Error::from(SG_Error::SG_ERROR_INVALID_ANIMATION_NODE))
        } else {
            Ok(CatalogBuilder { node_count: output.anim_node_count, nodes: Vec::new() })
        }
    }

    pub fn next_query(&self) -> (q: CatalogQuery)
        requires
            self.wf(),
        ensures
            q == self.query_spec(),
    {
        let n = self.nodes.len();
        if n > 0 && self.nodes[n - 1].channel_names.len() != self.nodes[n - 1].channel_count as usize {
            CatalogQuery::ChannelName((n - 1) as u32, self.nodes[n - 1].channel_names.len() as u32)
        } else if n < self.node_count as usize {
            CatalogQuery::NodeInfo(n as u32)
        } else {
            CatalogQuery::Done
        }
    }

    /// Records the answer to a node query: the node's raw name buffer and channel count.
    pub fn add_node(&mut self, name: &[u8], channel_count: u32)
        requires
            old(self).wf(),
            old(self).query_spec() is NodeInfo,
        ensures
            final(self).wf(),
            final(self).node_count_spec() == old(self).node_count_spec(),
            final(self).nodes_spec().len() == old(self).nodes_spec().len() + 1,
            final(self).nodes_spec().subrange(0, old(self).nodes_spec().len() as int)
                == old(self).nodes_spec(),
            ({
                let n = final(self).nodes_spec().last();
                n.name@ == node_name_text(name@) && n.channel_count == channel_count
                    && n.channel_names@.len() == 0
            }),
    {
        let info = AnimationNodeInfo {
            name: node_name(name),
            channel_count,
            channel_names: Vec::new(),
        };
        let ghost before = self.nodes@;
        self.nodes.push(info);
        assert(self.nodes@.subrange(0, before.len() as int) =~= before);
    }

    /// Records the answer to a channel query: the channel's raw name buffer.
    pub fn add_channel_name(&mut self, buffer: &[u8]) -> (r: Result<()>)
        requires
            old(self).wf(),
            old(self).query_spec() is ChannelName,
        ensures
            final(self).wf(),
            final(self).node_count_spec() == old(self).node_count_spec(),
            c_text(buffer@) is None ==> r == Err::<(), Error>(
                Error(SG_Error::SG_ERROR_INVALID_ANIMATION_CHANNEL),
            ) && final(self).nodes_spec() == old(self).nodes_spec(),
            c_text(buffer@) matches Some(t) ==> r is Ok && {
                let k = old(self).nodes_spec().len() - 1;
                let o = old(self).nodes_spec()[k];
                let n = final(self).nodes_spec()[k];
                &&& final(self).nodes_spec().len() == old(self).nodes_spec().len()
                &&& final(self).nodes_spec().subrange(0, k) == old(self).nodes_spec().subrange(0, k)
                &&& n.name == o.name
                &&& n.channel_count == o.channel_count
                &&& n.channel_names@.len() == o.channel_names@.len() + 1
                &&& n.channel_names@.subrange(0, o.channel_names@.len() as int) == o.channel_names@
                &&& n.channel_names@.last()@ == t
            },
    {
        let text = decode_channel_name(buffer);
        match text {
            Err(e) => Err(e),
            Ok(s) => {
                let ghost before = self.nodes@;
                let mut node = self.nodes.pop().unwrap();
                let ghost old_names = node.channel_names@;
                node.channel_names.push(s);
                assert(node.channel_names@.subrange(0, old_names.len() as int) =~= old_names);
                self.nodes.push(node);
                assert(self.nodes@.subrange(0, before.len() - 1) =~= before.subrange(0, before.len() - 1));
                assert forall|i: int| 0 <= i < self.nodes@.len() - 1 implies #[trigger] node_complete(self.nodes@[i]) by {
                    assert(self.nodes@[i] == before[i]);
                }
                assert forall|i: int| 0 <= i < self.nodes@.len() implies #[trigger] self.nodes@[i].channel_names@.len()
                    <= self.nodes@[i].channel_count by {
                    if i < self.nodes@.len() - 1 {
                        assert(self.nodes@[i] == before[i]);
                    }
                }
                Ok(())
            },
        }
    }

    /// The finished catalog: every node the engine reported, each with all its channel names.
    pub fn finish(self) -> (r: Vec<AnimationNodeInfo>)
        requires
            self.wf(),
            self.query_spec() is Done,
        ensures
            r@ == self.nodes_spec(),
            r@.len() == self.node_count_spec(),
            forall|i: int| 0 <= i < r@.len() ==> #[trigger] node_complete(r@[i]),
    {
        self.nodes
    }
}

/// Process-wide engine service: the static payloads every session is opened with.
#[derive(Debug)]
pub struct SGContext {
    character_data: Vec<u8>,
    algorithm_data: Vec<u8>,
}

impl SGContext {
    pub closed spec fn character_data_spec(&self) -> Seq<u8> {
        self.character_data@
    }

    pub closed spec fn algorithm_data_spec(&self) -> Seq<u8> {
        self.algorithm_data@
    }

    /// The service exists only once the engine's one-time initialization reported OK.
    pub fn new(character_data: Vec<u8>, algorithm_data: Vec<u8>, initialize_status: SG_Error) -> (r:
        Result<SGContext>)
        ensures
            initialize_status == SG_Error::SG_ERROR_OK ==> (r matches Ok(c)
                && c.character_data_spec() == character_data@ && c.algorithm_data_spec()
                == algorithm_data@),
            initialize_status != SG_Error::SG_ERROR_OK ==> r == Err::<SGContext, Error>(
                Error(initialize_status),
            ),
    {
        match initialize_status.into_result() {
            Ok(()) => Ok(SGContext { character_data, algorithm_data }),
            Err(e) => Err(e),
        }
    }

    /// Fresh copies of the payloads for a new session: the engine may write into them.
    pub fn session_payloads(&self) -> (r: (Vec<u8>, Vec<u8>))
        ensures
            r.0@ == self.character_data_spec(),
            r.1@ == self.algorithm_data_spec(),
    {
        (copy_bytes(&self.character_data), copy_bytes(&self.algorithm_data))
    }
}

fn copy_bytes(v: &Vec<u8>) -> (r: Vec<u8>)
    ensures
        r@ == v@,
{
    let mut out: Vec<u8> = Vec::with_capacity(v.len());
    let mut i: usize = 0;
    while i < v.len()
        invariant
            i <= v@.len(),
            out@ == v@.subrange(0, i as int),
        decreases v@.len() - i,
    {
        out.push(v[i]);
        i = i + 1;
        assert(out@ =~= v@.subrange(0, i as int));
    }
    assert(v@.subrange(0, v@.len() as int) =~= v@);
    out
}

} // verus!
