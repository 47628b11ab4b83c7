use vstd::prelude::*;
use std::collections::HashMap;
use std::collections::HashSet;
use crossbeam_channel::Sender;
use rand::rngs::StdRng;
use crate::packet::{
    NackType, Nack, PacketTypeView, NodeId, NodeType, Packet, PacketType, HeaderView, PacketView, FloodRequest, FloodResponse,
    SourceRoutingHeader, copy_trace, copy_hops, reversed_ids,
};
use crate::flood::{
    prior_hop, flood_recipients, turns_around, forwarded_request, flood_response, flood_targets,
    is_flood_plan, after_flood,
};
use crate::channel::{send_packet, seeded_rng, draw_percent};
use vstd::std_specs::hash::spec_keys_iter;
use vstd::std_specs::iter::IteratorSpec;

verus! {

broadcast use vstd::std_specs::hash::group_hash_axioms;

/// The largest drop probability, in percent.
pub const MAX_DROP_RATE: u8 = 100;

/// Mathematical state of a node.
pub struct DroneView {
    pub id: NodeId,
    /// Drop probability of data fragments, in percent.
    pub pdr: u8,
    /// Identifiers of the neighbors that have a channel in the registry.
    pub neighbors: Set<NodeId>,
    /// Flood identifiers already seen.
    pub seen: Set<u64>,
    pub crashed: bool,
}

/// A control command sent to a node.
pub enum DroneCommand {
    AddSender(NodeId, Sender<Packet>),
    SetPacketDropRate(u8),
    Crash,
}

/// A drop probability above a hundred percent.
#[derive(Clone, Copy, Debug, PartialEq, Eq, Structural)]
pub enum ConfigError {
    DropRateOutOfRange(u8),
}

/// Why a packet could not be moved one hop along its route.
#[derive(Clone, Copy, Debug, PartialEq, Eq, Structural)]
pub enum ForwardError {
    /// The hop at the current index is not this node.
    MisroutedPacket,
    /// This node is the last hop of the route.
    DestinationReached,
    /// The next hop has no channel in the registry.
    UnknownNextHop(NodeId),
    /// The next hop's channel is closed.
    NeighborUnreachable(NodeId),
}

/// The result of forwarding checks on a routing header, at a node.
pub open spec fn route_check(id: NodeId, neighbors: Set<NodeId>, h: HeaderView) -> Result<NodeId, ForwardError> {
    if h.hop_index >= h.hops.len() || h.hops[h.hop_index as int] != id {
        Err(ForwardError::MisroutedPacket)
    } else if h.hop_index + 1 >= h.hops.len() {
        Err(ForwardError::DestinationReached)
    } else if !neighbors.contains(h.hops[h.hop_index + 1int]) {
        Err(ForwardError::UnknownNextHop(h.hops[h.hop_index + 1int]))
    } else {
        Ok(h.hops[h.hop_index + 1int])
    }
}

/// What forwarding may return: the failure that the checks give, or, when they pass,
/// the next hop or the report that its channel is closed.
pub open spec fn forward_outcome(s: DroneView, h: HeaderView, r: Result<NodeId, ForwardError>) -> bool {
    match route_check(s.id, s.neighbors, h) {
        Ok(n) => r == Ok::<NodeId, ForwardError>(n) || r == Err::<NodeId, ForwardError>(ForwardError::NeighborUnreachable(n)),
        Err(e) => r == Err::<NodeId, ForwardError>(e),
    }
}

/// What became of a packet handed to a node. Where a negative acknowledgment was
/// sent, the outcome holds the neighbor it went to and whether its channel took it.
pub enum PacketOutcome {
    /// The node has crashed and takes no packet.
    Ignored,
    /// A data fragment discarded by the drop simulation.
    Dropped(Option<(NodeId, bool)>),
    /// The next hop the packet went to.
    Forwarded(NodeId),
    /// Why the packet did not go on.
    Rejected(ForwardError, Option<(NodeId, bool)>),
    /// A flood request: each neighbor a packet went to, with whether its channel took it.
    Flooded(Vec<(NodeId, bool)>),
}

/// The route of a negative acknowledgment: this node, then the hops the packet
/// travelled before reaching it, back to its origin.
pub open spec fn back_route(id: NodeId, h: HeaderView) -> Seq<NodeId> {
    seq![id] + h.hops.take(
        if h.hop_index < h.hops.len() {
            h.hop_index as int
        } else {
            h.hops.len() as int
        },
    ).reverse()
}

/// The reason a negative acknowledgment gives for a forwarding failure.
pub open spec fn nack_type_of(id: NodeId, e: ForwardError) -> NackType {
    match e {
        ForwardError::MisroutedPacket => NackType::UnexpectedRecipient(id),
        ForwardError::DestinationReached => NackType::DestinationIsDrone,
        ForwardError::UnknownNextHop(n) => NackType::ErrorInRouting(n),
        ForwardError::NeighborUnreachable(n) => NackType::ErrorInRouting(n),
    }
}

/// The negative acknowledgment for a fragment, routed back from this node.
pub open spec fn nack_packet(id: NodeId, h: HeaderView, session_id: u64, fragment_index: u64, nack_type: NackType) -> PacketView {
    PacketView {
        pack_type: PacketTypeView::Nack { fragment_index, nack_type },
        header: HeaderView { hop_index: 1, hops: back_route(id, h) },
        session_id,
    }
}

/// The neighbor a negative acknowledgment goes to: the previous hop, if it has a channel.
pub open spec fn nack_target(s: DroneView, h: HeaderView) -> Option<NodeId> {
    let r = back_route(s.id, h);
    if r.len() > 1 && s.neighbors.contains(r[1]) {
        Some(r[1])
    } else {
        None
    }
}

/// A negative acknowledgment went to `nack_target`, and only if there is one.
pub open spec fn nack_sent(s: DroneView, h: HeaderView, sent: Option<(NodeId, bool)>) -> bool {
    match nack_target(s, h) {
        Some(n) => sent matches Some((m, _)) && m == n,
        None => sent is None,
    }
}

/// The packet moved one hop forward: the hop index grows by one, all else stays.
pub open spec fn advanced(p: PacketView) -> PacketView {
    PacketView { header: HeaderView { hop_index: p.header.hop_index + 1, ..p.header }, ..p }
}

/// A list of outbound packets, each with the neighbor it goes to, seen through the packets' views.
pub open spec fn outbound_view(out: Seq<(NodeId, Packet)>) -> Seq<(NodeId, PacketView)> {
    out.map_values(|e: (NodeId, Packet)| (e.0, e.1@))
}

/// The targets of an outbound list are the same seen through the packets' views.
proof fn lemma_plan_view(out: Seq<(NodeId, Packet)>)
    ensures
        outbound_view(out).map_values(|e: (NodeId, PacketView)| e.0)
            == out.map_values(|e: (NodeId, Packet)| e.0),
        forall|k: int| 0 <= k < out.len() ==> (#[trigger] outbound_view(out)[k]) == (out[k].0, out[k].1@),
{
    assert(outbound_view(out).map_values(|e: (NodeId, PacketView)| e.0)
        =~= out.map_values(|e: (NodeId, Packet)| e.0));
}

/// A node of the mesh: its channel registry, flood memory, drop rate and crash flag.
pub struct RustafarianDrone {
    id: NodeId,
    pdr: u8,
    neighbors: HashMap<NodeId, Sender<Packet>>,
    flood_requests: HashSet<u64>,
    crashed: bool,
    rng: StdRng,
}

impl View for RustafarianDrone {
    type V = DroneView;

    closed spec fn view(&self) -> DroneView {
        DroneView {
            id: self.id,
            pdr: self.pdr,
            neighbors: self.neighbors@.dom(),
            seen: self.flood_requests@,
            crashed: self.crashed,
        }
    }
}

impl RustafarianDrone {
    /// The drop probability is a percentage.
    pub open spec fn wf(&self) -> bool {
        self@.pdr <= MAX_DROP_RATE
    }

    /// A node with no neighbors and an empty flood memory; the seed drives its drop decisions.
    pub fn new(id: NodeId, pdr: u8, seed: u64) -> (r: Result<Self, ConfigError>)
        ensures
            pdr > MAX_DROP_RATE <==> r == Err::<Self, ConfigError>(ConfigError::DropRateOutOfRange(pdr)),
            pdr <= MAX_DROP_RATE <==> r is Ok,
            r matches Ok(d) ==> d.wf() && d@ == (DroneView {
                id,
                pdr,
                neighbors: Set::empty(),
                seen: Set::empty(),
                crashed: false,
            }),
    {
        if pdr > MAX_DROP_RATE {
            return Err(ConfigError::DropRateOutOfRange(pdr));
        }
        let d = RustafarianDrone {
            id,
            pdr,
            neighbors: HashMap::new(),
            flood_requests: HashSet::new(),
            crashed: false,
            rng: seeded_rng(seed),
        };
        assert(d@.neighbors =~= Set::empty());
        Ok(d)
    }

    pub fn id(&self) -> (r: NodeId)
        ensures
            r == self@.id,
    {
        self.id
    }

    pub fn packet_drop_rate(&self) -> (r: u8)
        ensures
            r == self@.pdr,
    {
        self.pdr
    }

    pub fn is_crashed(&self) -> (r: bool)
        ensures
            r == self@.crashed,
    {
        self.crashed
    }

    pub fn has_neighbor(&self, node_id: NodeId) -> (r: bool)
        ensures
            r == self@.neighbors.contains(node_id),
    {
        self.neighbors.contains_key(&node_id)
    }

    pub fn has_seen_flood(&self, flood_id: u64) -> (r: bool)
        ensures
            r == self@.seen.contains(flood_id),
    {
        self.flood_requests.contains(&flood_id)
    }

    /// Inserts or replaces the channel to a neighbor.
    pub fn add_neighbor(&mut self, node_id: NodeId, neighbor: Sender<Packet>)
        requires
            old(self).wf(),
        ensures
            final(self).wf(),
            final(self)@ == (DroneView { neighbors: old(self)@.neighbors.insert(node_id), ..old(self)@ }),
    {
        self.neighbors.insert(node_id, neighbor);
    }

    /// Marks the node as crashed; it handles no packet after this.
    pub fn make_crash(&mut self)
        requires
            old(self).wf(),
        ensures
            final(self).wf(),
            final(self)@ == (DroneView { crashed: true, ..old(self)@ }),
    {
        self.crashed = true;
    }

    /// Sets the drop probability; a value above a hundred is refused and the old one kept.
    pub fn set_packet_drop_rate(&mut self, pdr: u8) -> (r: Result<(), ConfigError>)
        requires
            old(self).wf(),
        ensures
            final(self).wf(),
            pdr > MAX_DROP_RATE ==> r == Err::<(), ConfigError>(ConfigError::DropRateOutOfRange(pdr))
                && final(self)@ == old(self)@,
            pdr <= MAX_DROP_RATE ==> r is Ok && final(self)@ == (DroneView { pdr, ..old(self)@ }),
    {
        if pdr > MAX_DROP_RATE {
            return Err(ConfigError::DropRateOutOfRange(pdr));
        }
        self.pdr = pdr;
        Ok(())
    }

    /// Applies a control command.
    pub fn handle_command(&mut self, command: DroneCommand) -> (r: Result<(), ConfigError>)
        requires
            old(self).wf(),
        ensures
            final(self).wf(),
            match command {
                DroneCommand::AddSender(n, _) => r is Ok && final(self)@ == (DroneView {
                    neighbors: old(self)@.neighbors.insert(n),
                    ..old(self)@
                }),
                DroneCommand::SetPacketDropRate(p) => if p > MAX_DROP_RATE {
                    r == Err::<(), ConfigError>(ConfigError::DropRateOutOfRange(p)) && final(self)@ == old(self)@
                } else {
                    r is Ok && final(self)@ == (DroneView { pdr: p, ..old(self)@ })
                },
                DroneCommand::Crash => r is Ok && final(self)@ == (DroneView { crashed: true, ..old(self)@ }),
            },
    {
        match command {
            DroneCommand::AddSender(node_id, sender) => {
                self.add_neighbor(node_id, sender);
                Ok(())
            },
            DroneCommand::SetPacketDropRate(pdr) => self.set_packet_drop_rate(pdr),
            DroneCommand::Crash => {
                self.make_crash();
                Ok(())
            },
        }
    }

    /// The drop decision for a value drawn from `0..100`: drop when it is below the drop rate.
    pub fn should_drop(&self, draw: u8) -> (r: bool)
        ensures
            r == (draw < self@.pdr),
    {
        draw < self.pdr
    }

    /// Draws from the node's generator and decides whether to drop a data fragment.
    /// A rate of zero never drops, a rate of a hundred always does.
    pub fn draw_drop(&mut self) -> (r: bool)
        requires
            old(self).wf(),
        ensures
            final(self)@ == old(self)@,
            final(self).wf(),
            old(self)@.pdr == 0 ==> !r,
            old(self)@.pdr == MAX_DROP_RATE ==> r,
    {
        let draw = self.draw();
        self.should_drop(draw)
    }

    /// A value drawn from the node's generator, below a hundred.
    fn draw(&mut self) -> (r: u8)
        requires
            old(self).wf(),
        ensures
            final(self)@ == old(self)@,
            final(self).wf(),
            r < 100,
    {
        draw_percent(&mut self.rng)
    }

    /// Checks that a routing header can be moved one hop forward from this node,
    /// and returns the next hop.
    pub fn next_hop(&self, header: &SourceRoutingHeader) -> (r: Result<NodeId, ForwardError>)
        ensures
            r == route_check(self@.id, self@.neighbors, header@),
    {
        let i = header.hop_index;
        if i >= header.hops.len() || header.hops[i] != self.id {
            return Err(ForwardError::MisroutedPacket);
        }
        if i + 1 >= header.hops.len() {
            return Err(ForwardError::DestinationReached);
        }
        let next = header.hops[i + 1];
        if !self.neighbors.contains_key(&next) {
            return Err(ForwardError::UnknownNextHop(next));
        }
        Ok(next)
    }

    /// Moves a packet one hop forward: the packet to send, and the neighbor to send it to.
    pub fn prepare_forward(&self, packet: Packet) -> (r: Result<(NodeId, Packet), ForwardError>)
        ensures
            match route_check(self@.id, self@.neighbors, packet.routing_header@) {
                Ok(n) => r matches Ok((m, q)) && m == n && q@ == advanced(packet@),
                Err(e) => r == Err::<(NodeId, Packet), ForwardError>(e),
            },
    {
        match self.next_hop(&packet.routing_header) {
            Err(e) => Err(e),
            Ok(next) => {
                let mut p = packet;
                let len = p.routing_header.hops.len();
                assert(p.routing_header.hop_index + 1 < len);
                p.routing_header.hop_index = p.routing_header.hop_index + 1;
                Ok((next, p))
            },
        }
    }

    /// Sends a packet on the channel of a neighbor; false when it has none or it is closed.
    pub fn send_to(&self, node_id: NodeId, packet: Packet) -> (delivered: bool)
        ensures
            !self@.neighbors.contains(node_id) ==> !delivered,
    {
        match self.neighbors.get(&node_id) {
            Some(channel) => send_packet(channel, packet),
            None => false,
        }
    }

    /// Forwards a packet one hop along its route, and returns the neighbor it went to.
    /// A failure is returned to the caller; for a data fragment, `handle_fragment`
    /// reports it back toward the origin with a negative acknowledgment.
    pub fn forward_packet(&self, packet: Packet) -> (r: Result<NodeId, ForwardError>)
        ensures
            forward_outcome(self@, packet.routing_header@, r),
    {
        match self.prepare_forward(packet) {
            Err(e) => Err(e),
            Ok((next, p)) => {
                if self.send_to(next, p) {
                    Ok(next)
                } else {
                    Err(ForwardError::NeighborUnreachable(next))
                }
            },
        }
    }

    /// Identifiers of the neighbors in the registry, each once.
    pub fn neighbor_ids(&self) -> (r: Vec<NodeId>)
        ensures
            r@.no_duplicates(),
            r@.to_set() == self@.neighbors,
    {
        let ghost ks: Seq<NodeId> = spec_keys_iter(&self.neighbors).remaining().unref();
        let mut r: Vec<NodeId> = Vec::new();
        for k in it: self.neighbors.keys()
            invariant
                it.seq().unref() == ks,
                r@ == ks.take(it.index()),
        {
            r.push(*k);
            assert(r@ =~= ks.take(it.index() + 1));
        }
        assert(r@ =~= ks);
        r
    }

    /// The copy of a flood request that this node broadcasts.
    fn build_forwarded_request(&self, request: &FloodRequest, session_id: u64, header: &SourceRoutingHeader) -> (p: Packet)
        ensures
            p@ == forwarded_request(self@, request.flood_id, request.path_trace@, session_id, header@),
    {
        let mut trace = copy_trace(&request.path_trace);
        trace.push((self.id, NodeType::Drone));
        Packet {
            pack_type: PacketType::FloodRequest(FloodRequest { flood_id: request.flood_id, path_trace: trace }),
            routing_header: SourceRoutingHeader { hop_index: header.hop_index, hops: copy_hops(&header.hops) },
            session_id,
        }
    }

    /// The response this node sends back when it turns a flood around.
    fn build_flood_response(&self, request: &FloodRequest, session_id: u64) -> (p: Packet)
        ensures
            p@ == flood_response(self@, request.flood_id, request.path_trace@, session_id),
    {
        let mut trace = copy_trace(&request.path_trace);
        trace.push((self.id, NodeType::Drone));
        let hops = reversed_ids(&trace);
        Packet {
            pack_type: PacketType::FloodResponse(FloodResponse { flood_id: request.flood_id, path_trace: trace }),
            routing_header: SourceRoutingHeader { hop_index: 1, hops },
            session_id,
        }
    }

    /// The neighbors in the registry other than `prior`, each once.
    fn recipient_ids(&self, prior: Option<NodeId>) -> (r: Vec<NodeId>)
        ensures
            r@.no_duplicates(),
            r@.to_set() == match prior {
                Some(p) => self@.neighbors.remove(p),
                None => self@.neighbors,
            },
    {
        let ids = self.neighbor_ids();
        let ghost want = match prior {
            Some(p) => self@.neighbors.remove(p),
            None => self@.neighbors,
        };
        let mut r: Vec<NodeId> = Vec::new();
        let mut i: usize = 0;
        while i < ids.len()
            invariant
                i <= ids@.len(),
                ids@.no_duplicates(),
                ids@.to_set() == self@.neighbors,
                want == match prior {
                    Some(p) => self@.neighbors.remove(p),
                    None => self@.neighbors,
                },
                r@.no_duplicates(),
                r@.to_set() == ids@.take(i as int).to_set().intersect(want),
            decreases ids@.len() - i,
        {
            let id = ids[i];
            let skip = match prior {
                Some(p) => p == id,
                None => false,
            };
            proof {
                assert(ids@.take(i + 1) =~= ids@.take(i as int).push(id));
                assert(!ids@.take(i as int).contains(id)) by {
                    if ids@.take(i as int).contains(id) {
                        let j = choose|j: int| 0 <= j < i && ids@.take(i as int)[j] == id;
                        assert(ids@[j] == ids@[i as int]);
                    }
                }
                assert(ids@.to_set().contains(id));
            }
            if !skip {
                let ghost old_r = r@;
                r.push(id);
                proof {
                    assert(!old_r.contains(id)) by {
                        if old_r.contains(id) {
                            assert(old_r.to_set().contains(id));
                        }
                    }
                    old_r.lemma_push_to_set_commute(id);
                    assert(r@.to_set() =~= ids@.take(i + 1).to_set().intersect(want)) by {
                        ids@.take(i as int).lemma_push_to_set_commute(id);
                    }
                }
            } else {
                proof {
                    assert(r@.to_set() =~= ids@.take(i + 1).to_set().intersect(want)) by {
                        ids@.take(i as int).lemma_push_to_set_commute(id);
                    }
                }
            }
            i = i + 1;
        }
        proof {
            assert(ids@.take(ids@.len() as int) =~= ids@);
            assert(r@.to_set() =~= want);
        }
        r
    }

    /// The packets a flood request makes this node send, each with the neighbor it goes to.
    /// The node's state is not changed here.
    pub fn plan_flood(&self, request: &FloodRequest, session_id: u64, routing_header: &SourceRoutingHeader) -> (r: Vec<(NodeId, Packet)>)
        ensures
            is_flood_plan(self@, request.flood_id, request.path_trace@, session_id, routing_header@,
                outbound_view(r@)),
    {
        let ghost trace = request.path_trace@;
        let n = request.path_trace.len();
        let prior: Option<NodeId> = if n > 0 {
            Some(request.path_trace[n - 1].0)
        } else {
            None
        };
        assert(prior == prior_hop(trace));
        let mut out: Vec<(NodeId, Packet)> = Vec::new();
        if !self.flood_requests.contains(&request.flood_id) {
            let targets = self.recipient_ids(prior);
            let ghost fwd = forwarded_request(self@, request.flood_id, trace, session_id, routing_header@);
            let mut i: usize = 0;
            while i < targets.len()
                invariant
                    i <= targets@.len(),
                    out@.map_values(|e: (NodeId, Packet)| e.0) == targets@.take(i as int),
                    trace == request.path_trace@,
                    fwd == forwarded_request(self@, request.flood_id, trace, session_id, routing_header@),
                    forall|k: int| 0 <= k < out@.len() ==> (#[trigger] out@[k]).1@ == fwd,
                decreases targets@.len() - i,
            {
                let p = self.build_forwarded_request(request, session_id, routing_header);
                let ghost old_out = out@;
                out.push((targets[i], p));
                proof {
                    assert(out@ == old_out.push((targets@[i as int], p)));
                    assert(old_out.map_values(|e: (NodeId, Packet)| e.0).len() == i);
                    assert forall|k: int| 0 <= k < out@.len() implies (#[trigger] out@[k]).1@ == fwd by {
                        if k < old_out.len() {
                            assert(out@[k] == old_out[k]);
                        } else {
                            assert(out@[k] == (targets@[i as int], p));
                        }
                    }
                    assert(out@.map_values(|e: (NodeId, Packet)| e.0) =~= targets@.take(i + 1)) by {
                        assert forall|k: int| 0 <= k < i implies #[trigger] out@[k].0 == targets@[k] by {
                            assert(out@[k] == old_out[k]);
                            assert(old_out.map_values(|e: (NodeId, Packet)| e.0)[k] == targets@.take(i as int)[k]);
                        }
                    }
                }
                i = i + 1;
            }
            assert(targets@.take(targets@.len() as int) =~= targets@);
            if out.len() > 0 {
                proof {
                    lemma_plan_view(out@);
                    assert(targets@.to_set().contains(targets@[0]));
                    assert(!turns_around(self@, request.flood_id, trace));
                }
                return out;
            }
            proof {
                assert(flood_recipients(self@, trace) =~= Set::<NodeId>::empty()) by {
                    if exists|x: NodeId| flood_recipients(self@, trace).contains(x) {
                        let x = choose|x: NodeId| flood_recipients(self@, trace).contains(x);
                        assert(targets@.to_set().contains(x));
                    }
                }
            }
        }
        assert(turns_around(self@, request.flood_id, trace));
        match prior {
            Some(p) => {
                if self.neighbors.contains_key(&p) {
                    let resp = self.build_flood_response(request, session_id);
                    out.push((p, resp));
                }
            },
            None => {},
        }
        proof {
            lemma_plan_view(out@);
            let targets = out@.map_values(|e: (NodeId, Packet)| e.0);
            if out@.len() == 1 {
                assert(targets =~= seq![out@[0].0]);
            } else {
                assert(targets =~= Seq::<NodeId>::empty());
            }
        }
        out
    }

    /// Sends each packet on the channel of its neighbor. Returns, in the same order,
    /// each neighbor with whether its channel took the packet.
    fn dispatch(&self, out: Vec<(NodeId, Packet)>) -> (r: Vec<(NodeId, bool)>)
        ensures
            r@.map_values(|e: (NodeId, bool)| e.0) == out@.map_values(|e: (NodeId, Packet)| e.0),
    {
        let ghost all = out@;
        let mut r: Vec<(NodeId, bool)> = Vec::new();
        for e in it: out.into_iter()
            invariant
                it.seq() == all,
                r@.len() == it.index(),
                forall|k: int| 0 <= k < r@.len() ==> #[trigger] r@[k].0 == all[k].0,
        {
            let (to, p) = e;
            let delivered = self.send_to(to, p);
            r.push((to, delivered));
        }
        assert(r@.map_values(|x: (NodeId, bool)| x.0) =~= all.map_values(|x: (NodeId, Packet)| x.0));
        r
    }

    /// Handles a flood request: sends the packets that `plan_flood` gives, and remembers
    /// its identifier. Returns each neighbor a packet went to, with whether its channel
    /// took it. The contract fixes those neighbors; the packets themselves are fixed by
    /// the contract of `plan_flood`.
    pub fn handle_flood_req(&mut self, packet: FloodRequest, session_id: u64, routing_header: SourceRoutingHeader) -> (r: Vec<(NodeId, bool)>)
        requires
            old(self).wf(),
        ensures
            final(self).wf(),
            final(self)@ == after_flood(old(self)@, packet.flood_id),
            flood_targets(old(self)@, packet.flood_id, packet.path_trace@, r@.map_values(|e: (NodeId, bool)| e.0)),
    {
        let out = self.plan_flood(&packet, session_id, &routing_header);
        proof {
            lemma_plan_view(out@);
        }
        self.flood_requests.insert(packet.flood_id);
        self.dispatch(out)
    }

    /// The negative acknowledgment for a fragment that this node could not move on.
    pub fn build_nack(&self, header: &SourceRoutingHeader, session_id: u64, fragment_index: u64, nack_type: NackType) -> (p: Packet)
        ensures
            p@ == nack_packet(self@.id, header@, session_id, fragment_index, nack_type),
    {
        let n: usize = if header.hop_index < header.hops.len() {
            header.hop_index
        } else {
            header.hops.len()
        };
        let mut hops: Vec<NodeId> = Vec::new();
        hops.push(self.id);
        let mut i: usize = n;
        while i > 0
            invariant
                i <= n <= header.hops@.len(),
                hops@ == seq![self.id] + header.hops@.subrange(i as int, n as int).reverse(),
            decreases i,
        {
            i = i - 1;
            hops.push(header.hops[i]);
            assert(hops@ =~= seq![self.id] + header.hops@.subrange(i as int, n as int).reverse());
        }
        assert(header.hops@.subrange(0, n as int) =~= header.hops@.take(n as int));
        Packet {
            pack_type: PacketType::Nack(Nack { fragment_index, nack_type }),
            routing_header: SourceRoutingHeader { hop_index: 1, hops },
            session_id,
        }
    }

    /// The reason a negative acknowledgment gives for a forwarding failure.
    fn nack_type_for(&self, e: ForwardError) -> (r: NackType)
        ensures
            r == nack_type_of(self@.id, e),
    {
        match e {
            ForwardError::MisroutedPacket => NackType::UnexpectedRecipient(self.id),
            ForwardError::DestinationReached => NackType::DestinationIsDrone,
            ForwardError::UnknownNextHop(n) => NackType::ErrorInRouting(n),
            ForwardError::NeighborUnreachable(n) => NackType::ErrorInRouting(n),
        }
    }

    /// Sends the negative acknowledgment of `build_nack` to the previous hop, when
    /// that one has a channel. Returns that neighbor, with whether its channel took it.
    pub fn send_nack(&self, header: &SourceRoutingHeader, session_id: u64, fragment_index: u64, nack_type: NackType) -> (r: Option<(NodeId, bool)>)
        ensures
            nack_sent(self@, header@, r),
    {
        let p = self.build_nack(header, session_id, fragment_index, nack_type);
        if p.routing_header.hops.len() > 1 {
            let next = p.routing_header.hops[1];
            if self.neighbors.contains_key(&next) {
                let delivered = self.send_to(next, p);
                return Some((next, delivered));
            }
        }
        None
    }

    /// Handles a data fragment, given a value drawn from `0..100`. When the draw is below
    /// the drop rate the fragment is dropped; otherwise it is forwarded one hop. A fragment
    /// dropped or not moved on is answered with the negative acknowledgment of `build_nack`,
    /// sent to the previous hop.
    pub fn handle_fragment(&self, packet: Packet, draw: u8) -> (r: PacketOutcome)
        requires
            packet.pack_type is MsgFragment,
        ensures
            draw < self@.pdr ==> (r matches PacketOutcome::Dropped(nack) && nack_sent(self@, packet.routing_header@, nack)),
            draw >= self@.pdr ==> match r {
                PacketOutcome::Forwarded(n) => forward_outcome(self@, packet.routing_header@, Ok(n)),
                PacketOutcome::Rejected(e, nack) => forward_outcome(self@, packet.routing_header@, Err(e))
                    && nack_sent(self@, packet.routing_header@, nack),
                _ => false,
            },
    {
        let fragment_index: u64 = match &packet.pack_type {
            PacketType::MsgFragment(f) => f.fragment_index,
            _ => 0,
        };
        let header = SourceRoutingHeader {
            hop_index: packet.routing_header.hop_index,
            hops: copy_hops(&packet.routing_header.hops),
        };
        let session_id = packet.session_id;
        if self.should_drop(draw) {
            let nack = self.send_nack(&header, session_id, fragment_index, NackType::Dropped);
            return PacketOutcome::Dropped(nack);
        }
        match self.forward_packet(packet) {
            Ok(n) => PacketOutcome::Forwarded(n),
            Err(e) => {
                let nack_type = self.nack_type_for(e);
                PacketOutcome::Rejected(e, self.send_nack(&header, session_id, fragment_index, nack_type))
            },
        }
    }

    /// Handles a packet from the data channel. Flood requests go to `handle_flood_req`.
    /// A data fragment may be dropped, with the node's drop rate as probability; a
    /// fragment dropped or not moved on is answered with a negative acknowledgment.
    /// Every other packet, and a fragment that is kept, is forwarded one hop. A crashed
    /// node handles nothing.
    pub fn handle_packet(&mut self, packet: Packet) -> (r: PacketOutcome)
        requires
            old(self).wf(),
        ensures
            final(self).wf(),
            old(self)@.crashed ==> r is Ignored && final(self)@ == old(self)@,
            !old(self)@.crashed ==> match packet.pack_type {
                PacketType::FloodRequest(req) => {
                    &&& final(self)@ == after_flood(old(self)@, req.flood_id)
                    &&& r matches PacketOutcome::Flooded(v) && flood_targets(
                        old(self)@,
                        req.flood_id,
                        req.path_trace@,
                        v@.map_values(|e: (NodeId, bool)| e.0),
                    )
                },
                PacketType::MsgFragment(_) => {
                    &&& final(self)@ == old(self)@
                    &&& match r {
                        PacketOutcome::Dropped(nack) => old(self)@.pdr != 0 && nack_sent(old(self)@, packet.routing_header@, nack),
                        PacketOutcome::Forwarded(n) => forward_outcome(old(self)@, packet.routing_header@, Ok(n)),
                        PacketOutcome::Rejected(e, nack) => forward_outcome(old(self)@, packet.routing_header@, Err(e))
                            && nack_sent(old(self)@, packet.routing_header@, nack),
                        _ => false,
                    }
                    &&& old(self)@.pdr == MAX_DROP_RATE ==> r is Dropped
                },
                _ => {
                    &&& final(self)@ == old(self)@
                    &&& match r {
                        PacketOutcome::Forwarded(n) => forward_outcome(old(self)@, packet.routing_header@, Ok(n)),
                        PacketOutcome::Rejected(e, nack) => forward_outcome(old(self)@, packet.routing_header@, Err(e)) && nack is None,
                        _ => false,
                    }
                },
            },
    {
        if self.crashed {
            return PacketOutcome::Ignored;
        }
        let is_fragment = match &packet.pack_type {
            PacketType::MsgFragment(_) => true,
            _ => false,
        };
        if is_fragment {
            let draw = self.draw();
            return self.handle_fragment(packet, draw);
        }
        match packet.pack_type {
            PacketType::FloodRequest(req) => {
                let sent = self.handle_flood_req(req, packet.session_id, packet.routing_header);
                PacketOutcome::Flooded(sent)
            },
            pack_type => {
                let p = Packet { pack_type, routing_header: packet.routing_header, session_id: packet.session_id };
                match self.forward_packet(p) {
                    Ok(n) => PacketOutcome::Forwarded(n),
                    Err(e) => PacketOutcome::Rejected(e, None),
                }
            },
        }
    }
}

} // verus!
