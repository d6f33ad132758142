use ledrone::drone::{send_outcome_event, Drone};
use ledrone::sampling::PPM_SCALE;
use ledrone::types::{
    Ack, Action, DroneCommand, DroneEvent, FloodRequest, Fragment, NackType, NodeType, Packet,
    PacketType, RoutingCodes, SourceRoutingHeader,
};

fn fragment_packet(hops: Vec<u8>, hop_index: usize, session: u64, frag_idx: u64) -> Packet {
    Packet {
        pack_type: PacketType::MsgFragment(Fragment {
            fragment_index: frag_idx,
            total_n_fragments: 1,
            length: 4,
            data: vec![1, 2, 3, 4],
        }),
        routing_header: SourceRoutingHeader { hops, hop_index },
        session_id: session,
    }
}

fn ack_packet(hops: Vec<u8>, hop_index: usize, session: u64) -> Packet {
    Packet {
        pack_type: PacketType::Ack(Ack { fragment_index: 0 }),
        routing_header: SourceRoutingHeader { hops, hop_index },
        session_id: session,
    }
}

fn flood_packet(
    flood_id: u64,
    initiator_id: u8,
    path_trace: Vec<(u8, NodeType)>,
    session: u64,
) -> Packet {
    Packet {
        pack_type: PacketType::FloodRequest(FloodRequest { flood_id, initiator_id, path_trace }),
        routing_header: SourceRoutingHeader { hops: vec![], hop_index: 0 },
        session_id: session,
    }
}

#[test]
fn forward_fragment_when_not_dropped() {
    // node 3, neighbors {2,4}, header [1,3,4] at index 1, drop probability 0
    let mut d = Drone::new(3, 0, vec![2, 4]);
    let out = d.drone_behaviour(fragment_packet(vec![1, 3, 4], 1, 99, 7));
    assert_eq!(out.len(), 1);
    match &out[0] {
        Action::Send { dest, report_sent, packet } => {
            assert_eq!(*dest, 4);
            assert!(*report_sent);
            assert_eq!(packet.routing_header.hops, vec![1, 3, 4]);
            assert_eq!(packet.routing_header.hop_index, 2);
            assert_eq!(packet.session_id, 99);
            assert!(matches!(&packet.pack_type,
                PacketType::MsgFragment(f) if f.fragment_index == 7));
        }
        _ => panic!("expected a forward"),
    }
}

#[test]
fn drop_fragment_at_full_rate() {
    // same node, drop probability 1: no forward, a drop report, and a
    // Dropped nack walking back over [3,1]
    let mut d = Drone::new(3, PPM_SCALE, vec![2, 4]);
    let out = d.drone_behaviour(fragment_packet(vec![1, 3, 4], 1, 99, 7));
    assert_eq!(out.len(), 2);
    match &out[0] {
        Action::Notify(DroneEvent::PacketDropped(q)) => {
            assert_eq!(q.session_id, 99);
            assert!(matches!(q.pack_type, PacketType::MsgFragment(_)));
        }
        _ => panic!("expected a drop report first"),
    }
    match &out[1] {
        Action::Send { dest, report_sent, packet } => {
            assert_eq!(*dest, 1);
            assert!(*report_sent);
            assert_eq!(packet.routing_header.hops, vec![3, 1]);
            assert_eq!(packet.routing_header.hop_index, 1);
            assert_eq!(packet.session_id, 99);
            assert!(matches!(&packet.pack_type,
                PacketType::Nack(n) if n.nack_type == NackType::Dropped && n.fragment_index == 7));
        }
        _ => panic!("expected the nack send"),
    }
}

#[test]
fn flood_request_first_arrival_broadcasts() {
    // flood (initiator 9, id 5), trace [(9, Client)], arriving from
    // neighbor 9: recorded, re-broadcast to 2 and 4 but not 9
    let mut d = Drone::new(3, 0, vec![2, 4, 9]);
    assert!(!d.has_seen_flood(9, 5));
    let out = d.drone_behaviour(flood_packet(5, 9, vec![(9, NodeType::Client)], 42));
    assert!(d.has_seen_flood(9, 5));
    assert_eq!(out.len(), 2);
    let mut dests: Vec<u8> = Vec::new();
    for a in &out {
        match a {
            Action::Send { dest, report_sent, packet } => {
                assert!(!*report_sent);
                dests.push(*dest);
                assert_eq!(packet.session_id, 42);
                match &packet.pack_type {
                    PacketType::FloodRequest(fr) => {
                        assert_eq!(fr.flood_id, 5);
                        assert_eq!(fr.initiator_id, 9);
                        assert_eq!(
                            fr.path_trace,
                            vec![(9, NodeType::Client), (3, NodeType::Drone)]
                        );
                    }
                    _ => panic!("expected a flood request copy"),
                }
            }
            _ => panic!("expected sends only"),
        }
    }
    assert_eq!(dests, vec![2, 4]);
}

#[test]
fn flood_request_repeat_draws_response() {
    let mut d = Drone::new(3, 0, vec![2, 4, 9]);
    let _ = d.drone_behaviour(flood_packet(5, 9, vec![(9, NodeType::Client)], 42));
    // the same pair again, its trace showing the loop: one response, no
    // re-broadcast
    let out = d.drone_behaviour(flood_packet(
        5,
        9,
        vec![(9, NodeType::Client), (3, NodeType::Drone)],
        43,
    ));
    assert_eq!(out.len(), 1);
    match &out[0] {
        Action::Send { dest, report_sent, packet } => {
            assert_eq!(*dest, 3);
            assert!(*report_sent);
            assert_eq!(packet.routing_header.hops, vec![3, 3, 9]);
            assert_eq!(packet.routing_header.hop_index, 1);
            assert_eq!(packet.session_id, 43);
            match &packet.pack_type {
                PacketType::FloodResponse(fr) => {
                    assert_eq!(fr.flood_id, 5);
                    assert_eq!(
                        fr.path_trace,
                        vec![
                            (9, NodeType::Client),
                            (3, NodeType::Drone),
                            (3, NodeType::Drone)
                        ]
                    );
                }
                _ => panic!("expected a flood response"),
            }
        }
        _ => panic!("expected a single response send"),
    }
}

#[test]
fn flood_response_appends_missing_initiator() {
    // a trace that does not walk back to the initiator gets it appended
    let mut d = Drone::new(3, 0, vec![2]);
    let _ = d.drone_behaviour(flood_packet(8, 7, vec![(2, NodeType::Drone)], 1));
    let out = d.drone_behaviour(flood_packet(8, 7, vec![(2, NodeType::Drone)], 2));
    assert_eq!(out.len(), 1);
    match &out[0] {
        Action::Send { packet, .. } => {
            // extended trace [(2,Drone),(3,Drone)], reversed ids [3,2], 7 appended
            assert_eq!(packet.routing_header.hops, vec![3, 2, 7]);
            assert_eq!(packet.routing_header.hop_index, 1);
        }
        _ => panic!("expected a response send"),
    }
}

#[test]
fn flood_request_empty_trace_discarded() {
    let mut d = Drone::new(3, 0, vec![2, 4]);
    let out = d.drone_behaviour(flood_packet(5, 9, vec![], 42));
    assert!(out.is_empty());
    assert!(!d.has_seen_flood(9, 5));
}

#[test]
fn drop_rate_converges_to_configured_probability() {
    // statistical: with pdr 0.3 the observed drop frequency settles near 0.3
    let mut d = Drone::new(3, 300_000, vec![2, 4]);
    let trials = 10_000;
    let mut dropped = 0;
    for _ in 0..trials {
        let out = d.drone_behaviour(fragment_packet(vec![1, 3, 4], 1, 1, 0));
        if matches!(
            out.first(),
            Some(Action::Notify(DroneEvent::PacketDropped(_)))
        ) {
            dropped += 1;
        }
    }
    let freq = dropped as f64 / trials as f64;
    assert!(freq > 0.26 && freq < 0.34, "observed drop frequency {}", freq);
}

#[test]
fn crashed_fragment_rejected_with_error_in_routing() {
    let mut d = Drone::new(3, 0, vec![2, 4]);
    d.handle_command(DroneCommand::Crash);
    assert!(d.is_crashed());
    let out = d.drone_behaviour(fragment_packet(vec![1, 3, 4], 1, 7, 11));
    assert_eq!(out.len(), 1);
    match &out[0] {
        Action::Send { dest, packet, .. } => {
            assert_eq!(*dest, 1);
            assert_eq!(packet.routing_header.hops, vec![3, 1]);
            assert!(matches!(&packet.pack_type,
                PacketType::Nack(n) if n.nack_type == NackType::ErrorInRouting(3)
                    && n.fragment_index == 11));
        }
        _ => panic!("expected a nack send"),
    }
}

#[test]
fn crashed_flood_request_rejected_not_propagated() {
    let mut d = Drone::new(3, 0, vec![2, 4]);
    d.handle_command(DroneCommand::Crash);
    let mut p = flood_packet(5, 9, vec![(9, NodeType::Client)], 7);
    p.routing_header = SourceRoutingHeader { hops: vec![9, 3], hop_index: 1 };
    let out = d.drone_behaviour(p);
    assert_eq!(out.len(), 1);
    match &out[0] {
        Action::Send { dest, packet, .. } => {
            assert_eq!(*dest, 9);
            assert_eq!(packet.routing_header.hops, vec![3, 9]);
            assert!(matches!(&packet.pack_type,
                PacketType::Nack(n) if n.nack_type == NackType::ErrorInRouting(3)));
        }
        _ => panic!("expected a nack send"),
    }
    // nothing was recorded and nothing forwarded
    assert!(!d.has_seen_flood(9, 5));
}

#[test]
fn crashed_ack_still_forwarded() {
    let mut d = Drone::new(3, PPM_SCALE, vec![2, 4]);
    d.handle_command(DroneCommand::Crash);
    let out = d.drone_behaviour(ack_packet(vec![1, 3, 4], 1, 5));
    assert_eq!(out.len(), 1);
    match &out[0] {
        Action::Send { dest, report_sent, packet } => {
            assert_eq!(*dest, 4);
            assert!(*report_sent);
            assert_eq!(packet.routing_header.hop_index, 2);
            assert!(matches!(packet.pack_type, PacketType::Ack(_)));
        }
        _ => panic!("expected a forward"),
    }
}

#[test]
fn ack_never_probabilistically_dropped() {
    // acknowledgment-like traffic passes even at drop probability 1
    let mut d = Drone::new(3, PPM_SCALE, vec![2, 4]);
    let out = d.drone_behaviour(ack_packet(vec![1, 3, 4], 1, 5));
    assert_eq!(out.len(), 1);
    assert!(matches!(&out[0], Action::Send { dest: 4, .. }));
}

#[test]
fn unknown_next_hop_draws_error_in_routing() {
    // next hop 4 is not a neighbor: the fragment is answered, not forwarded
    let mut d = Drone::new(3, 0, vec![2]);
    let out = d.drone_behaviour(fragment_packet(vec![1, 3, 4], 1, 9, 2));
    assert_eq!(out.len(), 1);
    match &out[0] {
        Action::Send { dest, packet, .. } => {
            assert_eq!(*dest, 1);
            assert_eq!(packet.routing_header.hops, vec![3, 1]);
            assert!(matches!(&packet.pack_type,
                PacketType::Nack(n) if n.nack_type == NackType::ErrorInRouting(4)
                    && n.fragment_index == 2));
        }
        _ => panic!("expected a nack send"),
    }
}

#[test]
fn unknown_next_hop_ack_shortcuts_then_nacks() {
    let mut d = Drone::new(3, 0, vec![2]);
    let out = d.drone_behaviour(ack_packet(vec![1, 3, 4], 1, 9));
    assert_eq!(out.len(), 2);
    match &out[0] {
        Action::Notify(DroneEvent::ControllerShortcut(q)) => {
            assert!(matches!(q.pack_type, PacketType::Ack(_)));
        }
        _ => panic!("expected a shortcut first"),
    }
    match &out[1] {
        Action::Send { dest, packet, .. } => {
            assert_eq!(*dest, 1);
            assert!(matches!(&packet.pack_type,
                PacketType::Nack(n) if n.nack_type == NackType::ErrorInRouting(4)
                    && n.fragment_index == 0));
        }
        _ => panic!("expected the nack send"),
    }
}

#[test]
fn fragment_at_destination_shortcuts_and_nacks() {
    let mut d = Drone::new(3, 0, vec![1]);
    let out = d.drone_behaviour(fragment_packet(vec![1, 3], 1, 12, 4));
    assert_eq!(out.len(), 2);
    assert!(matches!(
        &out[0],
        Action::Notify(DroneEvent::ControllerShortcut(_))
    ));
    match &out[1] {
        Action::Send { dest, packet, .. } => {
            assert_eq!(*dest, 1);
            assert_eq!(packet.routing_header.hops, vec![3, 1]);
            assert!(matches!(&packet.pack_type,
                PacketType::Nack(n) if n.nack_type == NackType::DestinationIsDrone
                    && n.fragment_index == 0));
        }
        _ => panic!("expected the nack send"),
    }
}

#[test]
fn ack_at_destination_shortcuts_only() {
    let mut d = Drone::new(3, 0, vec![1]);
    let out = d.drone_behaviour(ack_packet(vec![1, 3], 1, 12));
    assert_eq!(out.len(), 1);
    match &out[0] {
        Action::Notify(DroneEvent::ControllerShortcut(q)) => {
            assert_eq!(q.session_id, 12);
            assert!(matches!(q.pack_type, PacketType::Ack(_)));
        }
        _ => panic!("expected a shortcut"),
    }
}

#[test]
fn wrong_recipient_fragment_answered() {
    // header names node 5 at the cursor, not node 3
    let mut d = Drone::new(3, 0, vec![2, 4]);
    let out = d.drone_behaviour(fragment_packet(vec![1, 5, 4], 1, 6, 8));
    assert_eq!(out.len(), 1);
    match &out[0] {
        Action::Send { dest, packet, .. } => {
            assert_eq!(*dest, 1);
            assert_eq!(packet.routing_header.hops, vec![5, 1]);
            assert!(matches!(&packet.pack_type,
                PacketType::Nack(n) if n.nack_type == NackType::UnexpectedRecipient(5)
                    && n.fragment_index == 8));
        }
        _ => panic!("expected a nack send"),
    }
}

#[test]
fn unusable_header_fragment_reported_to_controller() {
    // cursor out of bounds: no safe reverse route, the nack goes to the
    // controller as a drop report
    let mut d = Drone::new(3, 0, vec![2, 4]);
    let out = d.drone_behaviour(fragment_packet(vec![1, 2], 5, 6, 8));
    assert_eq!(out.len(), 1);
    match &out[0] {
        Action::Notify(DroneEvent::PacketDropped(q)) => {
            assert_eq!(q.routing_header.hops, vec![2, 1]);
            assert_eq!(q.routing_header.hop_index, 1);
            assert!(matches!(&q.pack_type,
                PacketType::Nack(n) if n.nack_type == NackType::UnexpectedRecipient(3)
                    && n.fragment_index == 0));
        }
        _ => panic!("expected a drop report"),
    }
}

#[test]
fn wrong_recipient_ack_reflected_and_shortcut() {
    let mut d = Drone::new(3, 0, vec![2, 4]);
    let out = d.drone_behaviour(ack_packet(vec![1, 5, 4], 1, 6));
    assert_eq!(out.len(), 2);
    match &out[0] {
        Action::Send { dest, packet, .. } => {
            assert_eq!(*dest, 1);
            assert!(matches!(&packet.pack_type,
                PacketType::Nack(n) if n.nack_type == NackType::UnexpectedRecipient(5)));
        }
        _ => panic!("expected a nack send first"),
    }
    assert!(matches!(
        &out[1],
        Action::Notify(DroneEvent::ControllerShortcut(_))
    ));
}

#[test]
fn unusable_header_ack_shortcut_only() {
    let mut d = Drone::new(3, 0, vec![2, 4]);
    let out = d.drone_behaviour(ack_packet(vec![1, 2], 7, 6));
    assert_eq!(out.len(), 1);
    assert!(matches!(
        &out[0],
        Action::Notify(DroneEvent::ControllerShortcut(_))
    ));
}

#[test]
fn routing_header_classification() {
    let d = Drone::new(3, 0, vec![]);
    let h = |hops: Vec<u8>, hop_index: usize| SourceRoutingHeader { hops, hop_index };
    assert_eq!(
        d.handle_routing_header(&h(vec![1, 3, 4], 1)),
        RoutingCodes::Correct
    );
    assert_eq!(
        d.handle_routing_header(&h(vec![1, 3], 1)),
        RoutingCodes::DestinationArrived
    );
    // arrival wins even when the last hop names another node
    assert_eq!(
        d.handle_routing_header(&h(vec![1, 5], 1)),
        RoutingCodes::DestinationArrived
    );
    assert_eq!(
        d.handle_routing_header(&h(vec![1, 5, 4], 1)),
        RoutingCodes::HopsMismatch
    );
    assert_eq!(
        d.handle_routing_header(&h(vec![1, 3], 4)),
        RoutingCodes::HopsMismatch
    );
    assert_eq!(d.handle_routing_header(&h(vec![], 0)), RoutingCodes::HopsMismatch);
}

#[test]
fn build_packet_nack_reverses_traveled_path() {
    let p = fragment_packet(vec![1, 2, 3, 4, 5], 2, 77, 9);
    let nack = Drone::build_packet_nack(&p, NackType::Dropped, Some(9));
    assert_eq!(nack.session_id, 77);
    assert_eq!(nack.routing_header.hops, vec![3, 2, 1]);
    assert_eq!(nack.routing_header.hop_index, 1);
    assert!(matches!(&nack.pack_type,
        PacketType::Nack(n) if n.nack_type == NackType::Dropped && n.fragment_index == 9));
}

#[test]
fn build_packet_nack_without_fragment_index() {
    let p = ack_packet(vec![8, 9], 1, 3);
    let nack = Drone::build_packet_nack(&p, NackType::DestinationIsDrone, None);
    assert_eq!(nack.routing_header.hops, vec![9, 8]);
    assert!(matches!(&nack.pack_type,
        PacketType::Nack(n) if n.fragment_index == 0));
}

#[test]
fn build_flood_response_keeps_trailing_initiator() {
    let req = FloodRequest {
        flood_id: 5,
        initiator_id: 9,
        path_trace: vec![(9, NodeType::Client), (3, NodeType::Drone)],
    };
    let r = Drone::build_packet_flood_response(req, 21);
    assert_eq!(r.session_id, 21);
    // reversed ids [3, 9] already end with the initiator
    assert_eq!(r.routing_header.hops, vec![3, 9]);
    assert_eq!(r.routing_header.hop_index, 1);
    match &r.pack_type {
        PacketType::FloodResponse(fr) => {
            assert_eq!(fr.flood_id, 5);
            assert_eq!(fr.path_trace, vec![(9, NodeType::Client), (3, NodeType::Drone)]);
        }
        _ => panic!("expected a flood response"),
    }
}

#[test]
fn build_flood_response_appends_absent_initiator() {
    let req = FloodRequest {
        flood_id: 5,
        initiator_id: 7,
        path_trace: vec![(9, NodeType::Client), (3, NodeType::Drone)],
    };
    let r = Drone::build_packet_flood_response(req, 21);
    assert_eq!(r.routing_header.hops, vec![3, 9, 7]);
}

#[test]
fn commands_mutate_state() {
    let mut d = Drone::new(3, 0, vec![2, 4]);
    assert_eq!(d.neighbor_list(), vec![2, 4]);

    d.handle_command(DroneCommand::SetPacketDropRate(123));
    assert_eq!(d.pdr, 123);

    d.handle_command(DroneCommand::AddSender(7));
    assert_eq!(d.neighbor_list(), vec![2, 4, 7]);
    // inserting a present id replaces its channel, not the table shape
    d.handle_command(DroneCommand::AddSender(7));
    assert_eq!(d.neighbor_list(), vec![2, 4, 7]);

    d.handle_command(DroneCommand::RemoveSender(2));
    assert_eq!(d.neighbor_list(), vec![4, 7]);
    // removing an absent id is not an error
    d.handle_command(DroneCommand::RemoveSender(99));
    assert_eq!(d.neighbor_list(), vec![4, 7]);

    assert!(!d.is_crashed());
    d.handle_command(DroneCommand::Crash);
    assert!(d.is_crashed());
}

#[test]
fn logging_toggle() {
    let mut d = Drone::new(3, 0, vec![]);
    assert!(d.is_logging());
    d.logging_enabled(false);
    assert!(!d.is_logging());
    d.logging_enabled(true);
    assert!(d.is_logging());
}

#[test]
fn send_outcome_events() {
    let p = ack_packet(vec![1, 2], 1, 5);
    match send_outcome_event(p, true, true) {
        Some(DroneEvent::PacketSent(q)) => assert_eq!(q.session_id, 5),
        _ => panic!("expected a sent report"),
    }
    let p = ack_packet(vec![1, 2], 1, 5);
    assert!(send_outcome_event(p, true, false).is_none());
    let p = ack_packet(vec![1, 2], 1, 5);
    match send_outcome_event(p, false, true) {
        Some(DroneEvent::PacketDropped(q)) => assert_eq!(q.session_id, 5),
        _ => panic!("expected a drop report"),
    }
}

#[test]
fn flood_request_with_usable_header_still_floods() {
    // a flood request whose header happens to classify as arrival is the
    // normal processing trigger
    let mut d = Drone::new(3, 0, vec![2, 9]);
    let mut p = flood_packet(5, 9, vec![(9, NodeType::Client)], 1);
    p.routing_header = SourceRoutingHeader { hops: vec![9, 3], hop_index: 1 };
    let out = d.drone_behaviour(p);
    assert!(d.has_seen_flood(9, 5));
    assert_eq!(out.len(), 1);
    match &out[0] {
        Action::Send { dest, packet, .. } => {
            assert_eq!(*dest, 2);
            // the forwarded copy keeps the original header untouched
            assert_eq!(packet.routing_header.hops, vec![9, 3]);
            assert_eq!(packet.routing_header.hop_index, 1);
        }
        _ => panic!("expected the re-broadcast"),
    }
}
