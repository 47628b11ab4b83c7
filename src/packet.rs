use vstd::prelude::*;

verus! {

/// Identifier of a node of the simulated network.
pub type NodeId = u8;

/// The kind of a node, as recorded in a flood's path trace.
#[derive(Clone, Copy, Debug, PartialEq, Eq, Structural)]
pub enum NodeType {
    Client,
    Drone,
    Server,
}

/// The reason carried by a negative acknowledgment.
#[derive(Clone, Copy, Debug, PartialEq, Eq, Structural)]
pub enum NackType {
    ErrorInRouting(NodeId),
    DestinationIsDrone,
    Dropped,
    UnexpectedRecipient(NodeId),
}

/// A source route: the whole path, and the position of the node that holds the packet.
#[derive(Clone, Debug, PartialEq, Eq)]
pub struct SourceRoutingHeader {
    pub hop_index: usize,
    pub hops: Vec<NodeId>,
}

#[derive(Clone, Debug, PartialEq, Eq)]
pub struct Fragment {
    pub fragment_index: u64,
    pub total_n_fragments: u64,
    pub data: Vec<u8>,
}

#[derive(Clone, Copy, Debug, PartialEq, Eq, Structural)]
pub struct Ack {
    pub fragment_index: u64,
}

#[derive(Clone, Copy, Debug, PartialEq, Eq, Structural)]
pub struct Nack {
    pub fragment_index: u64,
    pub nack_type: NackType,
}

/// A discovery request and the nodes it has visited, in order.
#[derive(Clone, Debug, PartialEq, Eq)]
pub struct FloodRequest {
    pub flood_id: u64,
    pub path_trace: Vec<(NodeId, NodeType)>,
}

/// The answer to a discovery request, carrying its finished path trace.
#[derive(Clone, Debug, PartialEq, Eq)]
pub struct FloodResponse {
    pub flood_id: u64,
    pub path_trace: Vec<(NodeId, NodeType)>,
}

#[derive(Clone, Debug, PartialEq, Eq)]
pub enum PacketType {
    MsgFragment(Fragment),
    Ack(Ack),
    Nack(Nack),
    FloodRequest(FloodRequest),
    FloodResponse(FloodResponse),
}

#[derive(Clone, Debug, PartialEq, Eq)]
pub struct Packet {
    pub pack_type: PacketType,
    pub routing_header: SourceRoutingHeader,
    pub session_id: u64,
}

/// Mathematical value of a routing header.
pub struct HeaderView {
    pub hop_index: nat,
    pub hops: Seq<NodeId>,
}

/// Mathematical value of a path trace entry list.
pub type TraceView = Seq<(NodeId, NodeType)>;

pub enum PacketTypeView {
    MsgFragment { fragment_index: u64, total_n_fragments: u64, data: Seq<u8> },
    Ack { fragment_index: u64 },
    Nack { fragment_index: u64, nack_type: NackType },
    FloodRequest { flood_id: u64, path_trace: TraceView },
    FloodResponse { flood_id: u64, path_trace: TraceView },
}

pub struct PacketView {
    pub pack_type: PacketTypeView,
    pub header: HeaderView,
    pub session_id: u64,
}

impl View for SourceRoutingHeader {
    type V = HeaderView;

    open spec fn view(&self) -> HeaderView {
        HeaderView { hop_index: self.hop_index as nat, hops: self.hops@ }
    }
}

impl View for PacketType {
    type V = PacketTypeView;

    open spec fn view(&self) -> PacketTypeView {
        match self {
            PacketType::MsgFragment(f) => PacketTypeView::MsgFragment {
                fragment_index: f.fragment_index,
                total_n_fragments: f.total_n_fragments,
                data: f.data@,
            },
            PacketType::Ack(a) => PacketTypeView::Ack { fragment_index: a.fragment_index },
            PacketType::Nack(n) => PacketTypeView::Nack {
                fragment_index: n.fragment_index,
                nack_type: n.nack_type,
            },
            PacketType::FloodRequest(r) => PacketTypeView::FloodRequest {
                flood_id: r.flood_id,
                path_trace: r.path_trace@,
            },
            PacketType::FloodResponse(r) => PacketTypeView::FloodResponse {
                flood_id: r.flood_id,
                path_trace: r.path_trace@,
            },
        }
    }
}

impl View for Packet {
    type V = PacketView;

    open spec fn view(&self) -> PacketView {
        PacketView {
            pack_type: self.pack_type@,
            header: self.routing_header@,
            session_id: self.session_id,
        }
    }
}

/// The node identifiers of a path trace, in the same order.
pub open spec fn trace_ids(trace: TraceView) -> Seq<NodeId> {
    trace.map_values(|e: (NodeId, NodeType)| e.0)
}

/// Copies a path trace entry by entry.
pub fn copy_trace(trace: &Vec<(NodeId, NodeType)>) -> (r: Vec<(NodeId, NodeType)>)
    ensures
        r@ == trace@,
{
    let mut r: Vec<(NodeId, NodeType)> = Vec::new();
    let mut i: usize = 0;
    while i < trace.len()
        invariant
            i <= trace@.len(),
            r@ == trace@.subrange(0, i as int),
        decreases trace@.len() - i,
    {
        let e = trace[i];
        r.push(e);
        i = i + 1;
    }
    assert(r@ =~= trace@);
    r
}

/// Copies a hop sequence.
pub fn copy_hops(hops: &Vec<NodeId>) -> (r: Vec<NodeId>)
    ensures
        r@ == hops@,
{
    let mut r: Vec<NodeId> = Vec::new();
    let mut i: usize = 0;
    while i < hops.len()
        invariant
            i <= hops@.len(),
            r@ == hops@.subrange(0, i as int),
        decreases hops@.len() - i,
    {
        r.push(hops[i]);
        i = i + 1;
    }
    assert(r@ =~= hops@);
    r
}

/// The node identifiers of a path trace, last visited first.
pub fn reversed_ids(trace: &Vec<(NodeId, NodeType)>) -> (r: Vec<NodeId>)
    ensures
        r@ == trace_ids(trace@).reverse(),
{
    let mut r: Vec<NodeId> = Vec::new();
    let mut i: usize = trace.len();
    while i > 0
        invariant
            i <= trace@.len(),
            r@ == trace_ids(trace@).subrange(i as int, trace@.len() as int).reverse(),
        decreases i,
    {
        i = i - 1;
        let e = trace[i];
        r.push(e.0);
        assert(r@ =~= trace_ids(trace@).subrange(i as int, trace@.len() as int).reverse());
    }
    assert(trace_ids(trace@).subrange(0, trace@.len() as int) =~= trace_ids(trace@));
    r
}

} // verus!
