use crossbeam_channel::unbounded;
use rustafarian_drone::{
    Nack, NackType, ConfigError, DroneCommand, FloodRequest, FloodResponse, ForwardError, Fragment, NodeType, Packet,
    PacketOutcome, PacketType, RustafarianDrone, SourceRoutingHeader, Ack,
};

fn drone(id: u8, pdr: u8) -> RustafarianDrone {
    match RustafarianDrone::new(id, pdr, 7) {
        Ok(d) => d,
        Err(e) => panic!("unexpected {:?}", e),
    }
}

fn fragment(hops: Vec<u8>, hop_index: usize) -> Packet {
    Packet {
        pack_type: PacketType::MsgFragment(Fragment { fragment_index: 0, total_n_fragments: 1, data: vec![1, 2, 3] }),
        routing_header: SourceRoutingHeader { hop_index, hops },
        session_id: 11,
    }
}

fn flood(flood_id: u64, trace: Vec<(u8, NodeType)>) -> Packet {
    Packet {
        pack_type: PacketType::FloodRequest(FloodRequest { flood_id, path_trace: trace }),
        routing_header: SourceRoutingHeader { hop_index: 0, hops: vec![] },
        session_id: 99,
    }
}

#[test]
fn new_rejects_rate_above_hundred() {
    assert!(matches!(RustafarianDrone::new(1, 101, 0), Err(ConfigError::DropRateOutOfRange(101))));
    let d = drone(4, 100);
    assert_eq!(d.id(), 4);
    assert_eq!(d.packet_drop_rate(), 100);
    assert!(!d.is_crashed());
}

#[test]
fn set_drop_rate_out_of_range_keeps_previous() {
    let mut d = drone(1, 30);
    assert_eq!(d.set_packet_drop_rate(150), Err(ConfigError::DropRateOutOfRange(150)));
    assert_eq!(d.packet_drop_rate(), 30);
    assert_eq!(d.handle_command(DroneCommand::SetPacketDropRate(55)), Ok(()));
    assert_eq!(d.packet_drop_rate(), 55);
}

#[test]
fn add_sender_registers_neighbor() {
    let mut d = drone(1, 0);
    let (s, _r) = unbounded();
    assert!(!d.has_neighbor(2));
    assert_eq!(d.handle_command(DroneCommand::AddSender(2, s)), Ok(()));
    assert!(d.has_neighbor(2));
    let mut ids = d.neighbor_ids();
    ids.sort();
    assert_eq!(ids, vec![2]);
}

#[test]
fn forward_advances_hop_index_only() {
    let mut d = drone(1, 0);
    let (s, r) = unbounded();
    d.add_neighbor(2, s);
    let p = fragment(vec![0, 1, 2], 1);
    assert_eq!(d.forward_packet(p.clone()), Ok(2));
    let got = r.try_recv().unwrap();
    let mut expected = p;
    expected.routing_header.hop_index = 2;
    assert_eq!(got, expected);
    assert!(r.try_recv().is_err());
}

#[test]
fn forward_reports_misrouted_packet() {
    let d = drone(1, 0);
    assert_eq!(d.forward_packet(fragment(vec![0, 4, 2], 1)), Err(ForwardError::MisroutedPacket));
    assert_eq!(d.forward_packet(fragment(vec![0, 1], 5)), Err(ForwardError::MisroutedPacket));
}

#[test]
fn forward_reports_destination_reached() {
    let d = drone(1, 0);
    assert_eq!(d.forward_packet(fragment(vec![0, 1], 1)), Err(ForwardError::DestinationReached));
}

#[test]
fn forward_reports_unknown_next_hop() {
    let d = drone(1, 0);
    assert_eq!(d.forward_packet(fragment(vec![0, 1, 9], 1)), Err(ForwardError::UnknownNextHop(9)));
}

#[test]
fn forward_reports_unreachable_neighbor() {
    let mut d = drone(1, 0);
    let (s, r) = unbounded();
    d.add_neighbor(2, s);
    drop(r);
    assert_eq!(d.forward_packet(fragment(vec![0, 1, 2], 1)), Err(ForwardError::NeighborUnreachable(2)));
}

#[test]
fn prepare_forward_gives_next_hop_and_packet() {
    let mut d = drone(3, 0);
    let (s, _r) = unbounded();
    d.add_neighbor(8, s);
    let p = fragment(vec![3, 8], 0);
    match d.prepare_forward(p) {
        Ok((next, q)) => {
            assert_eq!(next, 8);
            assert_eq!(q.routing_header.hop_index, 1);
            assert_eq!(q.routing_header.hops, vec![3, 8]);
            assert_eq!(q.session_id, 11);
        }
        Err(e) => panic!("unexpected {:?}", e),
    }
}

#[test]
fn first_flood_is_broadcast_to_all_but_sender() {
    let mut d = drone(1, 0);
    let (s2, r2) = unbounded();
    let (s3, r3) = unbounded();
    let (s5, r5) = unbounded();
    d.add_neighbor(2, s2);
    d.add_neighbor(3, s3);
    d.add_neighbor(5, s5);
    let out = d.handle_packet(flood(42, vec![(5, NodeType::Client)]));
    let mut targets: Vec<u8> = match out {
        PacketOutcome::Flooded(v) => v.iter().map(|e| e.0).collect(),
        _ => panic!("flood request not flooded"),
    };
    targets.sort();
    assert_eq!(targets, vec![2, 3]);
    assert!(d.has_seen_flood(42));
    let expected = Packet {
        pack_type: PacketType::FloodRequest(FloodRequest {
            flood_id: 42,
            path_trace: vec![(5, NodeType::Client), (1, NodeType::Drone)],
        }),
        routing_header: SourceRoutingHeader { hop_index: 0, hops: vec![] },
        session_id: 99,
    };
    assert_eq!(r2.try_recv().unwrap(), expected);
    assert_eq!(r3.try_recv().unwrap(), expected);
    assert!(r5.try_recv().is_err());
}

#[test]
fn repeated_flood_is_answered_along_reverse_path() {
    let mut d = drone(1, 0);
    let (s2, r2) = unbounded();
    let (s3, r3) = unbounded();
    let (s6, r6) = unbounded();
    d.add_neighbor(2, s2);
    d.add_neighbor(3, s3);
    d.add_neighbor(6, s6);
    d.handle_packet(flood(42, vec![(5, NodeType::Client)]));
    while r2.try_recv().is_ok() {}
    while r3.try_recv().is_ok() {}
    while r6.try_recv().is_ok() {}
    let trace = vec![(5, NodeType::Client), (1, NodeType::Drone), (3, NodeType::Drone), (6, NodeType::Drone)];
    let out = d.handle_packet(flood(42, trace.clone()));
    match out {
        PacketOutcome::Flooded(v) => assert_eq!(v, vec![(6, true)]),
        _ => panic!("flood request not handled"),
    }
    let mut finished = trace;
    finished.push((1, NodeType::Drone));
    let expected = Packet {
        pack_type: PacketType::FloodResponse(FloodResponse { flood_id: 42, path_trace: finished }),
        routing_header: SourceRoutingHeader { hop_index: 1, hops: vec![1, 6, 3, 1, 5] },
        session_id: 99,
    };
    assert_eq!(r6.try_recv().unwrap(), expected);
    assert!(r2.try_recv().is_err());
    assert!(r3.try_recv().is_err());
}

#[test]
fn third_delivery_turns_around_like_second() {
    let mut d = drone(1, 0);
    let (s2, r2) = unbounded();
    let (s3, r3) = unbounded();
    d.add_neighbor(2, s2);
    d.add_neighbor(3, s3);
    d.handle_packet(flood(7, vec![(2, NodeType::Client)]));
    assert_eq!(r3.try_recv().unwrap().routing_header.hops, Vec::<u8>::new());
    for _ in 0..2 {
        let out = d.handle_packet(flood(7, vec![(2, NodeType::Client), (3, NodeType::Drone)]));
        match out {
            PacketOutcome::Flooded(v) => assert_eq!(v, vec![(3, true)]),
            _ => panic!("flood request not handled"),
        }
        let got = r3.try_recv().unwrap();
        assert!(matches!(got.pack_type, PacketType::FloodResponse(_)));
        assert_eq!(got.routing_header.hops, vec![1, 3, 2]);
        assert!(r2.try_recv().is_err());
    }
}

#[test]
fn leaf_turns_first_flood_around() {
    let mut d = drone(4, 0);
    let (s, r) = unbounded();
    d.add_neighbor(9, s);
    let out = d.handle_packet(flood(1, vec![(9, NodeType::Client)]));
    match out {
        PacketOutcome::Flooded(v) => assert_eq!(v, vec![(9, true)]),
        _ => panic!("flood request not handled"),
    }
    let got = r.try_recv().unwrap();
    assert!(matches!(got.pack_type, PacketType::FloodResponse(_)));
    assert_eq!(got.routing_header, SourceRoutingHeader { hop_index: 1, hops: vec![4, 9] });
}

#[test]
fn flood_with_unknown_sender_is_lost() {
    let mut d = drone(4, 0);
    let out = d.handle_packet(flood(1, vec![(9, NodeType::Client)]));
    match out {
        PacketOutcome::Flooded(v) => assert!(v.is_empty()),
        _ => panic!("flood request not handled"),
    }
    assert!(d.has_seen_flood(1));
}

#[test]
fn zero_drop_rate_never_drops() {
    let mut d = drone(1, 0);
    let (s, r) = unbounded();
    d.add_neighbor(2, s);
    for _ in 0..500 {
        assert!(matches!(d.handle_packet(fragment(vec![0, 1, 2], 1)), PacketOutcome::Forwarded(2)));
    }
    assert_eq!(r.try_iter().count(), 500);
}

#[test]
fn full_drop_rate_always_drops() {
    let mut d = drone(1, 100);
    let (s, r) = unbounded();
    d.add_neighbor(2, s);
    for _ in 0..500 {
        assert!(matches!(d.handle_packet(fragment(vec![0, 1, 2], 1)), PacketOutcome::Dropped(None)));
        assert!(d.draw_drop());
    }
    assert!(r.try_recv().is_err());
}

#[test]
fn drop_rate_does_not_touch_acks() {
    let mut d = drone(1, 100);
    let (s, r) = unbounded();
    d.add_neighbor(2, s);
    let p = Packet {
        pack_type: PacketType::Ack(Ack { fragment_index: 3 }),
        routing_header: SourceRoutingHeader { hop_index: 1, hops: vec![0, 1, 2] },
        session_id: 5,
    };
    assert!(matches!(d.handle_packet(p), PacketOutcome::Forwarded(2)));
    assert!(matches!(r.try_recv().unwrap().pack_type, PacketType::Ack(Ack { fragment_index: 3 })));
}

#[test]
fn should_drop_compares_draw_with_rate() {
    let d = drone(1, 30);
    assert!(d.should_drop(0));
    assert!(d.should_drop(29));
    assert!(!d.should_drop(30));
    assert!(!d.should_drop(99));
}

#[test]
fn crashed_node_forwards_nothing() {
    let mut d = drone(1, 0);
    let (s, r) = unbounded();
    d.add_neighbor(2, s);
    assert_eq!(d.handle_command(DroneCommand::Crash), Ok(()));
    assert!(d.is_crashed());
    assert!(matches!(d.handle_packet(fragment(vec![0, 1, 2], 1)), PacketOutcome::Ignored));
    assert!(matches!(d.handle_packet(flood(3, vec![(0, NodeType::Client)])), PacketOutcome::Ignored));
    assert!(!d.has_seen_flood(3));
    assert!(r.try_recv().is_err());
}

fn nack(fragment_index: u64, nack_type: NackType, hops: Vec<u8>) -> Packet {
    Packet {
        pack_type: PacketType::Nack(Nack { fragment_index, nack_type }),
        routing_header: SourceRoutingHeader { hop_index: 1, hops },
        session_id: 11,
    }
}

#[test]
fn dropped_fragment_is_nacked_to_previous_hop() {
    let mut d = drone(1, 100);
    let (s0, r0) = unbounded();
    let (s2, r2) = unbounded();
    d.add_neighbor(0, s0);
    d.add_neighbor(2, s2);
    assert!(matches!(d.handle_packet(fragment(vec![7, 0, 1, 2], 2)), PacketOutcome::Dropped(Some((0, true)))));
    assert_eq!(r0.try_recv().unwrap(), nack(0, NackType::Dropped, vec![1, 0, 7]));
    assert!(r2.try_recv().is_err());
}

#[test]
fn unknown_next_hop_is_nacked() {
    let mut d = drone(1, 0);
    let (s0, r0) = unbounded();
    d.add_neighbor(0, s0);
    assert!(matches!(
        d.handle_packet(fragment(vec![0, 1, 9], 1)),
        PacketOutcome::Rejected(ForwardError::UnknownNextHop(9), Some((0, true)))
    ));
    assert_eq!(r0.try_recv().unwrap(), nack(0, NackType::ErrorInRouting(9), vec![1, 0]));
}

#[test]
fn misrouted_fragment_is_nacked() {
    let mut d = drone(1, 0);
    let (s0, r0) = unbounded();
    d.add_neighbor(0, s0);
    assert!(matches!(
        d.handle_packet(fragment(vec![0, 4, 2], 1)),
        PacketOutcome::Rejected(ForwardError::MisroutedPacket, Some((0, true)))
    ));
    assert_eq!(r0.try_recv().unwrap(), nack(0, NackType::UnexpectedRecipient(1), vec![1, 0]));
}

#[test]
fn fragment_at_last_hop_is_nacked() {
    let mut d = drone(1, 0);
    let (s0, r0) = unbounded();
    d.add_neighbor(0, s0);
    assert!(matches!(
        d.handle_packet(fragment(vec![0, 1], 1)),
        PacketOutcome::Rejected(ForwardError::DestinationReached, Some((0, true)))
    ));
    assert_eq!(r0.try_recv().unwrap(), nack(0, NackType::DestinationIsDrone, vec![1, 0]));
}

#[test]
fn nack_without_previous_hop_is_not_sent() {
    let mut d = drone(1, 0);
    assert!(matches!(
        d.handle_packet(fragment(vec![1], 0)),
        PacketOutcome::Rejected(ForwardError::DestinationReached, None)
    ));
}

#[test]
fn rejected_ack_is_not_nacked() {
    let mut d = drone(1, 0);
    let (s0, r0) = unbounded();
    d.add_neighbor(0, s0);
    let p = Packet {
        pack_type: PacketType::Ack(Ack { fragment_index: 3 }),
        routing_header: SourceRoutingHeader { hop_index: 1, hops: vec![0, 1, 9] },
        session_id: 5,
    };
    assert!(matches!(d.handle_packet(p), PacketOutcome::Rejected(ForwardError::UnknownNextHop(9), None)));
    assert!(r0.try_recv().is_err());
}

#[test]
fn build_nack_reverses_travelled_hops() {
    let d = drone(4, 0);
    let h = SourceRoutingHeader { hop_index: 3, hops: vec![10, 11, 12, 4, 13] };
    assert_eq!(d.build_nack(&h, 11, 6, NackType::Dropped), nack(6, NackType::Dropped, vec![4, 12, 11, 10]));
    let far = SourceRoutingHeader { hop_index: 9, hops: vec![10, 11] };
    assert_eq!(d.build_nack(&far, 11, 6, NackType::Dropped), nack(6, NackType::Dropped, vec![4, 11, 10]));
}

#[test]
fn flood_from_outside_neighbor_set_reaches_both_neighbors() {
    let mut d = drone(1, 0);
    let (s2, r2) = unbounded();
    let (s3, r3) = unbounded();
    d.add_neighbor(2, s2);
    d.add_neighbor(3, s3);
    let sent = d.handle_flood_req(
        FloodRequest { flood_id: 42, path_trace: vec![(5, NodeType::Client)] },
        99,
        SourceRoutingHeader { hop_index: 0, hops: vec![] },
    );
    let mut targets: Vec<u8> = sent.iter().map(|e| e.0).collect();
    targets.sort();
    assert_eq!(targets, vec![2, 3]);
    for r in [r2, r3] {
        match r.try_recv().unwrap().pack_type {
            PacketType::FloodRequest(f) => {
                assert_eq!(f.flood_id, 42);
                assert_eq!(f.path_trace, vec![(5, NodeType::Client), (1, NodeType::Drone)]);
            }
            _ => panic!("not a flood request"),
        }
    }
}

#[test]
fn fragment_below_rate_is_dropped_and_nacked() {
    let mut d = drone(1, 40);
    let (s0, r0) = unbounded();
    let (s2, r2) = unbounded();
    d.add_neighbor(0, s0);
    d.add_neighbor(2, s2);
    assert!(matches!(d.handle_fragment(fragment(vec![0, 1, 2], 1), 39), PacketOutcome::Dropped(Some((0, true)))));
    assert_eq!(r0.try_recv().unwrap(), nack(0, NackType::Dropped, vec![1, 0]));
    assert!(r2.try_recv().is_err());
}

#[test]
fn fragment_at_or_above_rate_is_forwarded() {
    let mut d = drone(1, 40);
    let (s0, r0) = unbounded();
    let (s2, r2) = unbounded();
    d.add_neighbor(0, s0);
    d.add_neighbor(2, s2);
    assert!(matches!(d.handle_fragment(fragment(vec![0, 1, 2], 1), 40), PacketOutcome::Forwarded(2)));
    let mut expected = fragment(vec![0, 1, 2], 1);
    expected.routing_header.hop_index = 2;
    assert_eq!(r2.try_recv().unwrap(), expected);
    assert!(r0.try_recv().is_err());
    assert!(matches!(
        d.handle_fragment(fragment(vec![0, 1, 9], 1), 99),
        PacketOutcome::Rejected(ForwardError::UnknownNextHop(9), Some((0, true)))
    ));
}
