use vstd::prelude::*;
use crate::packet::{NodeId, NodeType, HeaderView, PacketTypeView, PacketView, TraceView, trace_ids};
use crate::drone::DroneView;

verus! {

/// The node a flood arrived from: the last entry of its path trace, if any.
pub open spec fn prior_hop(trace: TraceView) -> Option<NodeId> {
    if trace.len() > 0 {
        Some(trace.last().0)
    } else {
        None
    }
}

/// The neighbors a new flood is broadcast to: all but the one it came from.
pub open spec fn flood_recipients(s: DroneView, trace: TraceView) -> Set<NodeId> {
    match prior_hop(trace) {
        Some(p) => s.neighbors.remove(p),
        None => s.neighbors,
    }
}

/// A flood is turned around when its identifier was seen before, or when no
/// neighbor is left to broadcast it to.
pub open spec fn turns_around(s: DroneView, flood_id: u64, trace: TraceView) -> bool {
    s.seen.contains(flood_id) || flood_recipients(s, trace) == Set::<NodeId>::empty()
}

/// The path trace with this node appended as a drone.
pub open spec fn extended_trace(s: DroneView, trace: TraceView) -> TraceView {
    trace.push((s.id, NodeType::Drone))
}

/// The copy of a flood request that is broadcast: the same identifier, session and
/// routing header, with this node appended to the path trace.
pub open spec fn forwarded_request(
    s: DroneView,
    flood_id: u64,
    trace: TraceView,
    session_id: u64,
    header: HeaderView,
) -> PacketView {
    PacketView {
        pack_type: PacketTypeView::FloodRequest { flood_id, path_trace: extended_trace(s, trace) },
        header,
        session_id,
    }
}

/// The response to a flood: the finished path trace, routed back along its reverse,
/// starting at index one since index zero is this node.
pub open spec fn flood_response(s: DroneView, flood_id: u64, trace: TraceView, session_id: u64) -> PacketView {
    PacketView {
        pack_type: PacketTypeView::FloodResponse { flood_id, path_trace: extended_trace(s, trace) },
        header: HeaderView { hop_index: 1, hops: trace_ids(extended_trace(s, trace)).reverse() },
        session_id,
    }
}

/// The neighbors a flood goes to. A broadcast reaches every recipient exactly once;
/// a turned-around flood goes back to the node it came from, if that one has a channel.
pub open spec fn flood_targets(s: DroneView, flood_id: u64, trace: TraceView, targets: Seq<NodeId>) -> bool {
    if turns_around(s, flood_id, trace) {
        match prior_hop(trace) {
            Some(p) => if s.neighbors.contains(p) {
                targets == seq![p]
            } else {
                targets == Seq::<NodeId>::empty()
            },
            None => targets == Seq::<NodeId>::empty(),
        }
    } else {
        &&& targets.no_duplicates()
        &&& targets.to_set() == flood_recipients(s, trace)
    }
}

/// The packets a flood request makes this node send, each with the neighbor it goes to.
pub open spec fn is_flood_plan(
    s: DroneView,
    flood_id: u64,
    trace: TraceView,
    session_id: u64,
    header: HeaderView,
    out: Seq<(NodeId, PacketView)>,
) -> bool {
    &&& flood_targets(s, flood_id, trace, out.map_values(|e: (NodeId, PacketView)| e.0))
    &&& forall|k: int|
        0 <= k < out.len() ==> (#[trigger] out[k]).1 == if turns_around(s, flood_id, trace) {
            flood_response(s, flood_id, trace, session_id)
        } else {
            forwarded_request(s, flood_id, trace, session_id, header)
        }
}

/// The node state after a flood request: its identifier is remembered.
pub open spec fn after_flood(s: DroneView, flood_id: u64) -> DroneView {
    DroneView { seen: s.seen.insert(flood_id), ..s }
}

/// A flood seen for the first time, with a neighbor other than the one it came from,
/// is broadcast to every such neighbor once, with a path trace one entry longer.
pub proof fn lemma_first_flood_broadcasts(
    s: DroneView,
    flood_id: u64,
    trace: TraceView,
    session_id: u64,
    header: HeaderView,
    out: Seq<(NodeId, PacketView)>,
)
    requires
        !s.seen.contains(flood_id),
        flood_recipients(s, trace) != Set::<NodeId>::empty(),
        is_flood_plan(s, flood_id, trace, session_id, header, out),
    ensures
        out.map_values(|e: (NodeId, PacketView)| e.0).to_set() == flood_recipients(s, trace),
        out.map_values(|e: (NodeId, PacketView)| e.0).no_duplicates(),
        forall|k: int| 0 <= k < out.len() ==> Some((#[trigger] out[k]).0) != prior_hop(trace),
        forall|k: int|
            0 <= k < out.len() ==> (#[trigger] out[k]).1 == forwarded_request(s, flood_id, trace, session_id, header),
        extended_trace(s, trace).len() == trace.len() + 1,
        extended_trace(s, trace).drop_last() == trace,
{
    let targets = out.map_values(|e: (NodeId, PacketView)| e.0);
    assert forall|k: int| 0 <= k < out.len() implies Some((#[trigger] out[k]).0) != prior_hop(trace) by {
        assert(targets[k] == out[k].0);
        assert(targets.to_set().contains(targets[k]));
    }
    assert(extended_trace(s, trace).drop_last() =~= trace);
}

/// A flood seen before makes at most one packet: the response, back to the node
/// it came from, routed along the reverse of the path trace with this node appended.
pub proof fn lemma_seen_flood_responds(
    s: DroneView,
    flood_id: u64,
    trace: TraceView,
    session_id: u64,
    header: HeaderView,
    out: Seq<(NodeId, PacketView)>,
)
    requires
        s.seen.contains(flood_id),
        is_flood_plan(s, flood_id, trace, session_id, header, out),
    ensures
        out.len() <= 1,
        out.len() == 1 <==> (prior_hop(trace) matches Some(p) && s.neighbors.contains(p)),
        out.len() == 1 ==> {
            &&& Some(out[0].0) == prior_hop(trace)
            &&& out[0].1.header.hops == trace_ids(trace.push((s.id, NodeType::Drone))).reverse()
            &&& out[0].1.header.hop_index == 1
            &&& out[0].1.pack_type == (PacketTypeView::FloodResponse {
                flood_id,
                path_trace: trace.push((s.id, NodeType::Drone)),
            })
        },
{
    let targets = out.map_values(|e: (NodeId, PacketView)| e.0);
    assert(targets.len() == out.len());
    if out.len() == 1 {
        assert(targets[0] == out[0].0);
    }
}

/// Handling a flood identifier a second time changes nothing, and every later
/// request with that identifier, whatever its path trace, is turned around again.
pub proof fn lemma_repeat_flood_turns_around(s: DroneView, flood_id: u64, later: TraceView)
    ensures
        after_flood(after_flood(s, flood_id), flood_id) == after_flood(s, flood_id),
        turns_around(after_flood(s, flood_id), flood_id, later),
        turns_around(after_flood(after_flood(s, flood_id), flood_id), flood_id, later),
        flood_recipients(after_flood(after_flood(s, flood_id), flood_id), later) == flood_recipients(
            after_flood(s, flood_id),
            later,
        ),
{
    assert(after_flood(s, flood_id).seen.insert(flood_id) =~= after_flood(s, flood_id).seen);
}

} // verus!
