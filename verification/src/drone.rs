//! The drone's state and its verified packet-handling engine.
//!
//! The executable functions here are specified against the transition
//! relations of [`crate::model`]: `handle_packet` performs one normal
//! processing step, `drone_behaviour` adds the crash gate and the random
//! drop draw, `handle_command` mutates state on controller instruction.
//! The surrounding I/O layer performs the returned [`Action`]s.

use vstd::prelude::*;
use crate::types::{
    copy_ids, copy_trace, Action, DroneCommand, DroneEvent, FloodRequest, Nack, NackType, NodeId,
    NodeType, Packet, PacketType, RoutingCodes, SourceRoutingHeader,
};
use crate::model::{
    behaviour_step_ok, classify, extended_trace, flood_response_hops, flood_step_ok, floods_plus,
    forward_step_ok,
    ids_excluding, is_flood_forward, is_nack_of, lemma_same_pack_type_refl,
    lemma_same_packet_refl, nack_hops, packet_step_ok, same_cfg, same_floods, same_packet,
    trace_ids,
};
use crate::laws::lemma_ids_excluding;
use crate::sampling::{sample_ppm, PPM_SCALE};

verus! {

/// Returns whether `x` stands in `v`.
pub fn contains_id(v: &Vec<NodeId>, x: NodeId) -> (b: bool)
    ensures
        b == v@.contains(x),
{
    let n = v.len();
    for i in 0..n
        invariant
            n == v@.len(),
            forall|k: int| 0 <= k < i ==> v@[k] != x,
    {
        if v[i] == x {
            return true;
        }
    }
    false
}

/// A single overlay node: its identity, drop probability, neighbor table,
/// flood history and degraded-operation flags.  The channels that reach the
/// neighbors and the controller are owned by the I/O layer, which keeps them
/// under the same identifiers.
pub struct Drone {
    /// This node's identifier.
    pub id: NodeId,
    /// Drop probability, in parts per million of [`PPM_SCALE`].
    pub pdr: u32,
    neighbor_ids: Vec<NodeId>,
    flood_history: Vec<(NodeId, u64)>,
    crashed_flag: bool,
    logging_flag: bool,
}

impl Drone {
    /// This node's identifier, for specification use.
    pub closed spec fn node_id(self) -> NodeId {
        self.id
    }

    /// The drop probability in parts per million, for specification use.
    pub closed spec fn drop_rate(self) -> u32 {
        self.pdr
    }

    /// The neighbor identifiers, in table order.
    pub closed spec fn neighbors(self) -> Seq<NodeId> {
        self.neighbor_ids@
    }

    /// Whether the flood pair (`init`, `fid`) has been seen.
    pub closed spec fn seen(self, init: NodeId, fid: u64) -> bool {
        self.flood_history@.contains((init, fid))
    }

    /// Whether the node is in the crashed state.
    pub closed spec fn crashed(self) -> bool {
        self.crashed_flag
    }

    /// Whether diagnostic logging is switched on.
    pub closed spec fn log_on(self) -> bool {
        self.logging_flag
    }

    /// The neighbor table holds each identifier at most once.
    pub closed spec fn wf(self) -> bool {
        self.neighbor_ids@.no_duplicates()
    }

    /// Creates a node with the given identity, drop probability and initial
    /// neighbor identifiers, an empty flood history, and logging on.
    pub fn new(id: NodeId, pdr: u32, neighbors: Vec<NodeId>) -> (d: Drone)
        requires
            neighbors@.no_duplicates(),
        ensures
            d.node_id() == id,
            d.drop_rate() == pdr,
            d.neighbors() == neighbors@,
            forall|i: NodeId, f: u64| !(#[trigger] d.seen(i, f)),
            !d.crashed(),
            d.log_on(),
            d.wf(),
    {
        Drone {
            id,
            pdr,
            neighbor_ids: neighbors,
            flood_history: Vec::new(),
            crashed_flag: false,
            logging_flag: true,
        }
    }

    /// Switches diagnostic logging on or off; nothing else changes.
    pub fn logging_enabled(&mut self, log: bool)
        ensures
            final(self).node_id() == old(self).node_id(),
            final(self).drop_rate() == old(self).drop_rate(),
            final(self).neighbors() == old(self).neighbors(),
            final(self).crashed() == old(self).crashed(),
            final(self).log_on() == log,
            same_floods(*old(self), *final(self)),
            final(self).wf() == old(self).wf(),
    {
        self.logging_flag = log;
    }

    /// Returns whether the node is crashed.
    pub fn is_crashed(&self) -> (b: bool)
        ensures
            b == self.crashed(),
    {
        self.crashed_flag
    }

    /// Returns whether diagnostic logging is on.
    pub fn is_logging(&self) -> (b: bool)
        ensures
            b == self.log_on(),
    {
        self.logging_flag
    }

    /// Returns a copy of the neighbor identifiers, in table order.
    pub fn neighbor_list(&self) -> (r: Vec<NodeId>)
        ensures
            r@ == self.neighbors(),
    {
        copy_ids(&self.neighbor_ids)
    }

    /// Returns whether the flood pair (`init`, `fid`) has been seen.
    pub fn has_seen_flood(&self, init: NodeId, fid: u64) -> (b: bool)
        ensures
            b == self.seen(init, fid),
    {
        let n = self.flood_history.len();
        for i in 0..n
            invariant
                n == self.flood_history@.len(),
                forall|k: int| 0 <= k < i ==> self.flood_history@[k] != (init, fid),
        {
            let e = self.flood_history[i];
            if e.0 == init && e.1 == fid {
                assert(self.flood_history@[i as int] == (init, fid));
                return true;
            }
        }
        assert(!self.flood_history@.contains((init, fid)));
        false
    }

    /// Records the flood pair (`init`, `fid`) as seen.
    fn record_flood(&mut self, init: NodeId, fid: u64)
        requires
            old(self).wf(),
        ensures
            final(self).wf(),
            same_cfg(*old(self), *final(self)),
            floods_plus(*old(self), *final(self), init, fid),
    {
        if !self.has_seen_flood(init, fid) {
            let ghost h_old = self.flood_history@;
            self.flood_history.push((init, fid));
            proof {
                assert forall|i: NodeId, f: u64|
                    #[trigger] self.seen(i, f) == (old(self).seen(i, f) || (i == init && f
                        == fid)) by {
                    let h = self.flood_history@;
                    if h.contains((i, f)) {
                        let k = choose|k: int| 0 <= k < h.len() && h[k] == (i, f);
                        if k < h_old.len() {
                            assert(h_old[k] == (i, f));
                        }
                    }
                    if h_old.contains((i, f)) {
                        let k = choose|k: int| 0 <= k < h_old.len() && h_old[k] == (i, f);
                        assert(h[k] == (i, f));
                    }
                    if i == init && f == fid {
                        assert(h[h_old.len() as int] == (i, f));
                    }
                }
            }
        }
    }

    /// Applies one controller command: crash is a one-directional
    /// transition, the drop rate is replaced without bounds validation, and
    /// neighbor entries are inserted or removed by identifier (removing an
    /// absent one is not an error).  Commands never produce actions.
    pub fn handle_command(&mut self, command: DroneCommand)
        requires
            old(self).wf(),
        ensures
            final(self).wf(),
            final(self).node_id() == old(self).node_id(),
            final(self).log_on() == old(self).log_on(),
            same_floods(*old(self), *final(self)),
            final(self).drop_rate() == (match command {
                DroneCommand::SetPacketDropRate(p) => p,
                _ => old(self).drop_rate(),
            }),
            final(self).crashed() == (command is Crash || old(self).crashed()),
            final(self).neighbors() == (match command {
                DroneCommand::AddSender(n) => if old(self).neighbors().contains(n) {
                    old(self).neighbors()
                } else {
                    old(self).neighbors().push(n)
                },
                DroneCommand::RemoveSender(n) => ids_excluding(old(self).neighbors(), n),
                _ => old(self).neighbors(),
            }),
    {
        match command {
            DroneCommand::Crash => {
                self.crashed_flag = true;
            },
            DroneCommand::SetPacketDropRate(p) => {
                self.pdr = p;
            },
            DroneCommand::AddSender(n) => {
                if !contains_id(&self.neighbor_ids, n) {
                    let ghost s = self.neighbor_ids@;
                    self.neighbor_ids.push(n);
                    proof {
                        assert forall|i: int, j: int|
                            0 <= i < self.neighbor_ids@.len() && 0 <= j
                                < self.neighbor_ids@.len() && i != j implies self.neighbor_ids@[i]
                            != self.neighbor_ids@[j] by {
                            if i < s.len() && j < s.len() {
                            } else if i == s.len() {
                                assert(s.contains(s[j]));
                            } else if j == s.len() {
                                assert(s.contains(s[i]));
                            }
                        }
                    }
                }
            },
            DroneCommand::RemoveSender(n) => {
                let ghost s = self.neighbor_ids@;
                let mut kept: Vec<NodeId> = Vec::new();
                let count = self.neighbor_ids.len();
                for i in 0..count
                    invariant
                        count == self.neighbor_ids@.len(),
                        self.neighbor_ids@ == s,
                        kept@ == ids_excluding(s.subrange(0, i as int), n),
                {
                    proof {
                        assert(s.subrange(0, i + 1).drop_last() =~= s.subrange(0, i as int));
                        assert(s.subrange(0, i + 1).last() == s[i as int]);
                    }
                    let nb = self.neighbor_ids[i];
                    if nb != n {
                        kept.push(nb);
                    }
                }
                proof {
                    assert(s.subrange(0, s.len() as int) =~= s);
                    lemma_ids_excluding(s, n);
                }
                self.neighbor_ids = kept;
            },
        }
    }

    /// Classifies an inbound routing header against this node's identity.
    pub fn handle_routing_header(&self, srh: &SourceRoutingHeader) -> (r: RoutingCodes)
        ensures
            r == classify(self.node_id(), srh.hops@, srh.hop_index as int),
    {
        if srh.valid_hop_index() {
            if srh.is_last_hop() {
                RoutingCodes::DestinationArrived
            } else {
                match srh.current_hop() {
                    // a valid cursor always finds a hop; defensive arm
                    None => RoutingCodes::HopsMismatch,
                    Some(h) => if h == self.id {
                        RoutingCodes::Correct
                    } else {
                        RoutingCodes::HopsMismatch
                    },
                }
            }
        } else {
            RoutingCodes::HopsMismatch
        }
    }

    /// Synthesizes the negative acknowledgment of `packet`: the traveled
    /// part of the path reversed into a return route with the cursor on
    /// slot 1, carrying the given reason and fragment index (zero when not
    /// applicable).
    pub fn build_packet_nack(packet: &Packet, nack_id: NackType, optional_fragment_index: Option<
        u64,
    >) -> (r: Packet)
        ensures
            is_nack_of(
                r,
                *packet,
                nack_id,
                match optional_fragment_index {
                    Some(i) => i,
                    None => 0,
                },
            ),
    {
        let hops_len = packet.routing_header.hops.len();
        let m = if packet.routing_header.hop_index < hops_len {
            packet.routing_header.hop_index + 1
        } else {
            hops_len
        };
        let mut rev: Vec<NodeId> = Vec::new();
        for j in 0..m
            invariant
                m <= hops_len,
                hops_len == packet.routing_header.hops@.len(),
                rev@.len() == j,
                forall|t: int| 0 <= t < j ==> rev@[t] == packet.routing_header.hops@[m - 1 - t],
        {
            rev.push(packet.routing_header.hops[m - 1 - j]);
        }
        proof {
            let hops = packet.routing_header.hops@;
            let nh = nack_hops(hops, packet.routing_header.hop_index as int);
            assert(hops.subrange(0, m as int).len() == m);
            assert(nh.len() == m);
            assert forall|t: int| 0 <= t < m implies nh[t] == hops[m - 1 - t] by {
                assert(nh[t] == hops.subrange(0, m as int)[m - 1 - t]);
            }
            assert(rev@ =~= nh);
        }
        let fragment_index = match optional_fragment_index {
            Some(i) => i,
            None => 0,
        };
        Packet {
            session_id: packet.session_id,
            routing_header: SourceRoutingHeader { hops: rev, hop_index: 1 },
            pack_type: PacketType::Nack(Nack { fragment_index, nack_type: nack_id }),
        }
    }

    /// Builds the flood response for a request whose path trace this node
    /// has already extended with itself: the trace's ids walked backwards
    /// form the return route, the initiator appended when missing, and the
    /// full trace rides in the payload.
    pub fn build_packet_flood_response(flreq_header: FloodRequest, srcid: u64) -> (r: Packet)
        ensures
            r.session_id == srcid,
            r.routing_header.hop_index == 1,
            r.routing_header.hops@ == flood_response_hops(
                flreq_header.path_trace@,
                flreq_header.initiator_id,
            ),
            r.pack_type matches PacketType::FloodResponse(fr) && fr.flood_id
                == flreq_header.flood_id && fr.path_trace@ == flreq_header.path_trace@,
    {
        let trace_len = flreq_header.path_trace.len();
        let mut rethop: Vec<NodeId> = Vec::new();
        for j in 0..trace_len
            invariant
                trace_len == flreq_header.path_trace@.len(),
                rethop@.len() == j,
                forall|t: int| 0 <= t < j ==> rethop@[t] == flreq_header.path_trace@[trace_len - 1
                    - t].0,
        {
            rethop.push(flreq_header.path_trace[trace_len - 1 - j].0);
        }
        proof {
            let t = flreq_header.path_trace@;
            let rev = trace_ids(t).reverse();
            assert(trace_ids(t).len() == t.len());
            assert(rev.len() == t.len());
            assert forall|k: int| 0 <= k < t.len() implies rev[k] == t[t.len() - 1 - k].0 by {
                assert(rev[k] == trace_ids(t)[t.len() - 1 - k]);
            }
            assert(rethop@ =~= rev);
        }
        if rethop.len() == 0 || rethop[rethop.len() - 1] != flreq_header.initiator_id {
            rethop.push(flreq_header.initiator_id);
        }
        Packet {
            routing_header: SourceRoutingHeader { hop_index: 1, hops: rethop },
            pack_type: PacketType::FloodResponse(crate::types::FloodResponse {
                flood_id: flreq_header.flood_id,
                path_trace: flreq_header.path_trace,
            }),
            session_id: srcid,
        }
    }

    /// Advances a packet whose header classification was `Correct`: hands it
    /// to the next hop when that hop is a known neighbor, and otherwise
    /// answers with an `ErrorInRouting` negative acknowledgment, the
    /// acknowledgment-like payloads going to the controller as a shortcut
    /// besides.  `frag` is the payload's fragment index, `None` for the
    /// acknowledgment-like payloads.
    pub fn update_packet_to_forward(&self, packet: Packet, frag: Option<u64>) -> (out: Vec<Action>)
        requires
            packet.routing_header.hop_index + 1 < packet.routing_header.hops@.len(),
        ensures
            forward_step_ok(*self, *self, packet, frag, out@),
    {
        let mut packet = packet;
        // the hop count fits a usize, so the advanced cursor cannot overflow
        let hops_len = packet.routing_header.hops.len();
        assert(packet.routing_header.hop_index + 1 < hops_len);
        let nexthop = packet.routing_header.next_hop().unwrap();
        let mut out: Vec<Action> = Vec::new();
        if contains_id(&self.neighbor_ids, nexthop) {
            proof {
                lemma_same_pack_type_refl(packet.pack_type);
            }
            packet.routing_header.hop_index = packet.routing_header.hop_index + 1;
            out.push(Action::Send { dest: nexthop, report_sent: true, packet });
        } else {
            let nack = Self::build_packet_nack(&packet, NackType::ErrorInRouting(nexthop), frag);
            match frag {
                Some(_) => {},
                None => {
                    proof {
                        lemma_same_packet_refl(packet);
                    }
                    out.push(Action::Notify(DroneEvent::ControllerShortcut(packet)));
                },
            }
            if nack.routing_header.hops.len() >= 2 {
                let dest = nack.routing_header.hops[1];
                out.push(Action::Send { dest, report_sent: true, packet: nack });
            }
        }
        out
    }

    /// Runs the flood engine on request `req` carried by `packet`: discards
    /// an unattributable request (empty trace), answers an already-seen
    /// (initiator, flood id) pair with exactly one flood response toward
    /// where the request came from, and records a new pair and re-broadcasts
    /// the request — trace extended with this node — to every neighbor but
    /// that one.
    pub fn handle_flooding_req(&mut self, req: &FloodRequest, packet: &Packet) -> (out: Vec<
        Action,
    >)
        requires
            old(self).wf(),
        ensures
            final(self).wf(),
            flood_step_ok(*old(self), *final(self), *req, *packet, out@),
    {
        let mut out: Vec<Action> = Vec::new();
        let trace_len = req.path_trace.len();
        if trace_len == 0 {
            return out;
        }
        if self.has_seen_flood(req.initiator_id, req.flood_id) {
            let mut ext = copy_trace(&req.path_trace);
            ext.push((self.id, NodeType::Drone));
            let ext_req = FloodRequest {
                flood_id: req.flood_id,
                initiator_id: req.initiator_id,
                path_trace: ext,
            };
            let resp = Self::build_packet_flood_response(ext_req, packet.session_id);
            proof {
                let t = extended_trace(*req, self.node_id());
                assert(t.len() >= 2);
                assert(trace_ids(t).len() == t.len());
                assert(trace_ids(t).reverse().len() == t.len());
                assert(flood_response_hops(t, req.initiator_id).len() >= 2);
            }
            let dest = resp.routing_header.hops[1];
            out.push(Action::Send { dest, report_sent: true, packet: resp });
            out
        } else {
            self.record_flood(req.initiator_id, req.flood_id);
            let from = req.path_trace[trace_len - 1].0;
            let mut ext = copy_trace(&req.path_trace);
            ext.push((self.id, NodeType::Drone));
            let ghost neigh = self.neighbors();
            let count = self.neighbor_ids.len();
            for i in 0..count
                invariant
                    count == self.neighbor_ids@.len(),
                    neigh == self.neighbors(),
                    ext@ == extended_trace(*req, self.node_id()),
                    out@.len() == ids_excluding(neigh.subrange(0, i as int), from).len(),
                    forall|j: int|
                        #![trigger out@[j]]
                        0 <= j < out@.len() ==> (out@[j] matches Action::Send {
                            dest,
                            report_sent,
                            packet: fp,
                        } && dest == ids_excluding(neigh.subrange(0, i as int), from)[j]
                            && report_sent == false && is_flood_forward(
                            fp,
                            *req,
                            self.node_id(),
                            *packet,
                        )),
            {
                proof {
                    assert(neigh.subrange(0, i + 1).drop_last() =~= neigh.subrange(0, i as int));
                    assert(neigh.subrange(0, i + 1).last() == neigh[i as int]);
                }
                let nb = self.neighbor_ids[i];
                if nb != from {
                    let fp = Packet {
                        session_id: packet.session_id,
                        routing_header: SourceRoutingHeader {
                            hops: copy_ids(&packet.routing_header.hops),
                            hop_index: packet.routing_header.hop_index,
                        },
                        pack_type: PacketType::FloodRequest(FloodRequest {
                            flood_id: req.flood_id,
                            initiator_id: req.initiator_id,
                            path_trace: copy_trace(&ext),
                        }),
                    };
                    out.push(Action::Send { dest: nb, report_sent: false, packet: fp });
                }
            }
            proof {
                assert(neigh.subrange(0, count as int) =~= neigh);
            }
            out
        }
    }

    /// One normal processing step: classify the header, then drop, forward,
    /// reject or delegate to the flood engine as the classification and the
    /// payload demand.  A `roll` below the drop rate drops a fragment.
    pub fn handle_packet(&mut self, packet: Packet, roll: u32) -> (out: Vec<Action>)
        requires
            old(self).wf(),
        ensures
            final(self).wf(),
            packet_step_ok(*old(self), *final(self), packet, roll, out@),
    {
        let code = self.handle_routing_header(&packet.routing_header);
        match code {
            RoutingCodes::Correct => {
                let mut frag_index: Option<u64> = None;
                let mut is_floodreq = false;
                match &packet.pack_type {
                    PacketType::MsgFragment(f) => {
                        frag_index = Some(f.fragment_index);
                    },
                    PacketType::FloodRequest(_) => {
                        is_floodreq = true;
                    },
                    _ => {},
                }
                if is_floodreq {
                    // a flood request never reaches the forwarding engine
                    Vec::new()
                } else {
                    match frag_index {
                        Some(fi) => {
                            if roll < self.pdr {
                                let nack = Self::build_packet_nack(
                                    &packet,
                                    NackType::Dropped,
                                    Some(fi),
                                );
                                let mut out: Vec<Action> = Vec::new();
                                proof {
                                    lemma_same_packet_refl(packet);
                                }
                                out.push(Action::Notify(DroneEvent::PacketDropped(packet)));
                                if nack.routing_header.hops.len() >= 2 {
                                    let dest = nack.routing_header.hops[1];
                                    out.push(
                                        Action::Send { dest, report_sent: true, packet: nack },
                                    );
                                }
                                out
                            } else {
                                self.update_packet_to_forward(packet, Some(fi))
                            }
                        },
                        None => self.update_packet_to_forward(packet, None),
                    }
                }
            },
            RoutingCodes::DestinationArrived => {
                match &packet.pack_type {
                    PacketType::FloodRequest(req) => self.handle_flooding_req(req, &packet),
                    PacketType::MsgFragment(_) => {
                        let nack = Self::build_packet_nack(
                            &packet,
                            NackType::DestinationIsDrone,
                            None,
                        );
                        let mut out: Vec<Action> = Vec::new();
                        proof {
                            lemma_same_packet_refl(packet);
                        }
                        out.push(Action::Notify(DroneEvent::ControllerShortcut(packet)));
                        if nack.routing_header.hops.len() >= 2 {
                            let dest = nack.routing_header.hops[1];
                            out.push(Action::Send { dest, report_sent: true, packet: nack });
                        }
                        out
                    },
                    _ => {
                        let mut out: Vec<Action> = Vec::new();
                        proof {
                            lemma_same_packet_refl(packet);
                        }
                        out.push(Action::Notify(DroneEvent::ControllerShortcut(packet)));
                        out
                    },
                }
            },
            RoutingCodes::HopsMismatch => {
                match &packet.pack_type {
                    PacketType::FloodRequest(req) => self.handle_flooding_req(req, &packet),
                    PacketType::MsgFragment(f) => {
                        let fi = f.fragment_index;
                        let mut out: Vec<Action> = Vec::new();
                        if packet.routing_header.hop_index < packet.routing_header.hops.len() {
                            let wrong =
                                packet.routing_header.hops[packet.routing_header.hop_index];
                            let nack = Self::build_packet_nack(
                                &packet,
                                NackType::UnexpectedRecipient(wrong),
                                Some(fi),
                            );
                            if nack.routing_header.hops.len() >= 2 {
                                let dest = nack.routing_header.hops[1];
                                out.push(Action::Send { dest, report_sent: true, packet: nack });
                            }
                        } else {
                            // unusable header: the nack is reported to the
                            // controller instead of being routed
                            let nack = Self::build_packet_nack(
                                &packet,
                                NackType::UnexpectedRecipient(self.id),
                                None,
                            );
                            out.push(Action::Notify(DroneEvent::PacketDropped(nack)));
                        }
                        out
                    },
                    _ => {
                        let mut out: Vec<Action> = Vec::new();
                        if packet.routing_header.hop_index < packet.routing_header.hops.len() {
                            let wrong =
                                packet.routing_header.hops[packet.routing_header.hop_index];
                            let nack = Self::build_packet_nack(
                                &packet,
                                NackType::UnexpectedRecipient(wrong),
                                None,
                            );
                            if nack.routing_header.hops.len() >= 2 {
                                let dest = nack.routing_header.hops[1];
                                out.push(Action::Send { dest, report_sent: true, packet: nack });
                            }
                            proof {
                                lemma_same_packet_refl(packet);
                            }
                            out.push(Action::Notify(DroneEvent::ControllerShortcut(packet)));
                        } else {
                            proof {
                                lemma_same_packet_refl(packet);
                            }
                            out.push(Action::Notify(DroneEvent::ControllerShortcut(packet)));
                        }
                        out
                    },
                }
            },
        }
    }

    /// One full arrival with the drop decision given by `roll`: a crashed
    /// node rejects fragments and flood requests with an `ErrorInRouting`
    /// nack and never forwards them, while acknowledgment-like traffic it
    /// already committed to still runs the normal step.
    pub fn drone_behaviour_with_roll(&mut self, packet: Packet, roll: u32) -> (out: Vec<Action>)
        requires
            old(self).wf(),
        ensures
            final(self).wf(),
            behaviour_step_ok(*old(self), *final(self), packet, roll, out@),
    {
        if self.is_crashed() {
            let mut fi: u64 = 0;
            let mut reject = false;
            match &packet.pack_type {
                PacketType::MsgFragment(f) => {
                    fi = f.fragment_index;
                    reject = true;
                },
                PacketType::FloodRequest(_) => {
                    reject = true;
                },
                _ => {},
            }
            if reject {
                let nack = Self::build_packet_nack(
                    &packet,
                    NackType::ErrorInRouting(self.id),
                    Some(fi),
                );
                let mut out: Vec<Action> = Vec::new();
                if nack.routing_header.hops.len() >= 2 {
                    let dest = nack.routing_header.hops[1];
                    out.push(Action::Send { dest, report_sent: true, packet: nack });
                }
                out
            } else {
                self.handle_packet(packet, roll)
            }
        } else {
            self.handle_packet(packet, roll)
        }
    }

    /// Handles one inbound packet, drawing the drop decision from the
    /// node's random source: some uniform roll below `PPM_SCALE` explains
    /// the outcome.
    pub fn drone_behaviour(&mut self, packet: Packet) -> (out: Vec<Action>)
        requires
            old(self).wf(),
        ensures
            final(self).wf(),
            exists|roll: u32|
                roll < PPM_SCALE && behaviour_step_ok(
                    *old(self),
                    *final(self),
                    packet,
                    roll,
                    out@,
                ),
    {
        let roll = sample_ppm();
        self.drone_behaviour_with_roll(packet, roll)
    }
}

/// Converts the outcome of one channel send into the event the controller
/// is owed: a failed send is a drop report; a successful send is reported
/// only when the action asked for it.
pub fn send_outcome_event(packet: Packet, delivered: bool, report_sent: bool) -> (r: Option<
    DroneEvent,
>)
    ensures
        (delivered && report_sent) ==> (r matches Some(DroneEvent::PacketSent(p)) && same_packet(
            p,
            packet,
        )),
        (delivered && !report_sent) ==> r is None,
        !delivered ==> (r matches Some(DroneEvent::PacketDropped(p)) && same_packet(p, packet)),
{
    proof {
        lemma_same_packet_refl(packet);
    }
    if !delivered {
        Some(DroneEvent::PacketDropped(packet))
    } else if report_sent {
        Some(DroneEvent::PacketSent(packet))
    } else {
        None
    }
}

} // verus!
