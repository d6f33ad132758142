//! Mathematical model of the drone's decisions.
//!
//! Every executable function of the library is specified against the
//! functions here: classification of a routing header, the shape of a
//! synthesized negative acknowledgment, the shape of a flood response, the
//! neighbors a flood re-broadcast reaches, and the full packet-processing
//! transition relation.

use vstd::prelude::*;
use crate::types::{
    Action, DroneEvent, FloodRequest, NackType, NodeId, NodeType, Packet, PacketType,
    RoutingCodes,
};
use crate::drone::Drone;

verus! {

/// Classification of a routing header against a node's own identity:
/// a valid cursor on the last hop means arrival (whatever id stands there);
/// a valid cursor on this node's id means this node should forward;
/// anything else is a mismatch.
pub open spec fn classify(id: NodeId, hops: Seq<NodeId>, hop_index: int) -> RoutingCodes {
    if 0 <= hop_index < hops.len() {
        if hop_index == hops.len() - 1 {
            RoutingCodes::DestinationArrived
        } else if hops[hop_index] == id {
            RoutingCodes::Correct
        } else {
            RoutingCodes::HopsMismatch
        }
    } else {
        RoutingCodes::HopsMismatch
    }
}

/// The hop sequence of a synthesized negative acknowledgment: the traveled
/// part of the path `[h0, ..., h_k]` (clamped to what exists), reversed.
pub open spec fn nack_hops(hops: Seq<NodeId>, hop_index: int) -> Seq<NodeId> {
    let m = if hop_index + 1 < hops.len() {
        hop_index + 1
    } else {
        hops.len() as int
    };
    hops.subrange(0, m).reverse()
}

/// The packets of two values are the same traffic: equal sessions, equal
/// headers, equal payloads.
pub open spec fn same_packet(a: Packet, b: Packet) -> bool {
    &&& a.session_id == b.session_id
    &&& a.routing_header.hops@ == b.routing_header.hops@
    &&& a.routing_header.hop_index == b.routing_header.hop_index
    &&& same_pack_type(a.pack_type, b.pack_type)
}

/// Payloads hold the same data, compared field by field.
pub open spec fn same_pack_type(a: PacketType, b: PacketType) -> bool {
    match (a, b) {
        (PacketType::MsgFragment(x), PacketType::MsgFragment(y)) => {
            &&& x.fragment_index == y.fragment_index
            &&& x.total_n_fragments == y.total_n_fragments
            &&& x.length == y.length
            &&& x.data@ == y.data@
        },
        (PacketType::Ack(x), PacketType::Ack(y)) => x == y,
        (PacketType::Nack(x), PacketType::Nack(y)) => x == y,
        (PacketType::FloodRequest(x), PacketType::FloodRequest(y)) => {
            &&& x.flood_id == y.flood_id
            &&& x.initiator_id == y.initiator_id
            &&& x.path_trace@ == y.path_trace@
        },
        (PacketType::FloodResponse(x), PacketType::FloodResponse(y)) => {
            &&& x.flood_id == y.flood_id
            &&& x.path_trace@ == y.path_trace@
        },
        _ => false,
    }
}

/// Every payload is the same traffic as itself.
pub proof fn lemma_same_pack_type_refl(x: PacketType)
    ensures
        same_pack_type(x, x),
{
}

/// Every packet is the same traffic as itself.
pub proof fn lemma_same_packet_refl(x: Packet)
    ensures
        same_packet(x, x),
{
    lemma_same_pack_type_refl(x.pack_type);
}

impl Clone for PacketType {
    fn clone(&self) -> (r: Self)
        ensures
            same_pack_type(r, *self),
    {
        match self {
            PacketType::MsgFragment(f) => PacketType::MsgFragment(f.clone()),
            PacketType::Ack(a) => PacketType::Ack(*a),
            PacketType::Nack(n) => PacketType::Nack(*n),
            PacketType::FloodRequest(fr) => PacketType::FloodRequest(fr.clone()),
            PacketType::FloodResponse(fr) => PacketType::FloodResponse(fr.clone()),
        }
    }
}

impl Clone for Packet {
    fn clone(&self) -> (r: Self)
        ensures
            same_packet(r, *self),
    {
        Packet {
            pack_type: self.pack_type.clone(),
            routing_header: self.routing_header.clone(),
            session_id: self.session_id,
        }
    }
}

/// `r` is the negative acknowledgment synthesized from `src`: same session,
/// traveled path reversed with the cursor on slot 1, and a `Nack` payload
/// with the given reason and fragment index.
pub open spec fn is_nack_of(r: Packet, src: Packet, nt: NackType, frag: u64) -> bool {
    &&& r.session_id == src.session_id
    &&& r.routing_header.hops@ == nack_hops(
        src.routing_header.hops@,
        src.routing_header.hop_index as int,
    )
    &&& r.routing_header.hop_index == 1
    &&& r.pack_type matches PacketType::Nack(n) && n.nack_type == nt && n.fragment_index == frag
}

/// A synthesized negative acknowledgment can be routed back only when its
/// header names a previous hop, that is, when the traveled path had at least
/// two entries.
pub open spec fn nack_route_exists(src: Packet) -> bool {
    nack_hops(src.routing_header.hops@, src.routing_header.hop_index as int).len() >= 2
}

/// The action returns the negative acknowledgment of `src` to the hop the
/// packet came from, reporting the send to the controller.
pub open spec fn is_nack_send(a: Action, src: Packet, nt: NackType, frag: u64) -> bool {
    &&& a matches Action::Send { dest, report_sent, packet }
    &&& dest == nack_hops(src.routing_header.hops@, src.routing_header.hop_index as int)[1]
    &&& report_sent == true
    &&& is_nack_of(packet, src, nt, frag)
}

/// The node identifiers of a path trace, in trace order.
pub open spec fn trace_ids(trace: Seq<(NodeId, NodeType)>) -> Seq<NodeId> {
    trace.map_values(|p: (NodeId, NodeType)| p.0)
}

/// The hop sequence of a flood response: the trace's node ids walked
/// backwards, with the initiator appended when the reversal does not already
/// end on it (a guard against an incomplete trace).
pub open spec fn flood_response_hops(trace: Seq<(NodeId, NodeType)>, initiator: NodeId) -> Seq<
    NodeId,
> {
    let rev = trace_ids(trace).reverse();
    if rev.len() > 0 && rev.last() == initiator {
        rev
    } else {
        rev.push(initiator)
    }
}

/// The path trace of `req` with this node appended as a drone.
pub open spec fn extended_trace(req: FloodRequest, id: NodeId) -> Seq<(NodeId, NodeType)> {
    req.path_trace@.push((id, NodeType::Drone))
}

/// `r` is the flood response this node synthesizes for `req`: the extended
/// trace reversed into a return route with the cursor on slot 1, and the full
/// extended trace carried in the payload.
pub open spec fn is_flood_response(r: Packet, req: FloodRequest, id: NodeId, session: u64) -> bool {
    let t = extended_trace(req, id);
    &&& r.session_id == session
    &&& r.routing_header.hop_index == 1
    &&& r.routing_header.hops@ == flood_response_hops(t, req.initiator_id)
    &&& r.pack_type matches PacketType::FloodResponse(fr) && fr.flood_id == req.flood_id
        && fr.path_trace@ == t
}

/// `r` is the re-broadcast copy of the flood request `req` as it left `orig`:
/// session and routing header untouched, the trace extended with this node.
pub open spec fn is_flood_forward(r: Packet, req: FloodRequest, id: NodeId, orig: Packet) -> bool {
    &&& r.session_id == orig.session_id
    &&& r.routing_header.hops@ == orig.routing_header.hops@
    &&& r.routing_header.hop_index == orig.routing_header.hop_index
    &&& r.pack_type matches PacketType::FloodRequest(fr) && fr.flood_id == req.flood_id
        && fr.initiator_id == req.initiator_id && fr.path_trace@ == extended_trace(req, id)
}

/// The neighbors a flood re-broadcast reaches: every id of `neighbors` except
/// `from`, in table order.
pub open spec fn ids_excluding(neighbors: Seq<NodeId>, from: NodeId) -> Seq<NodeId>
    decreases neighbors.len(),
{
    if neighbors.len() == 0 {
        Seq::empty()
    } else {
        let rest = ids_excluding(neighbors.drop_last(), from);
        if neighbors.last() == from {
            rest
        } else {
            rest.push(neighbors.last())
        }
    }
}

/// `r` is the packet `src` advanced one hop: nothing changes but the cursor.
pub open spec fn is_forwarded(r: Packet, src: Packet) -> bool {
    &&& r.session_id == src.session_id
    &&& r.routing_header.hops@ == src.routing_header.hops@
    &&& r.routing_header.hop_index == src.routing_header.hop_index + 1
    &&& same_pack_type(r.pack_type, src.pack_type)
}

/// The two states agree on everything but the flood history.
pub open spec fn same_cfg(a: Drone, b: Drone) -> bool {
    &&& b.node_id() == a.node_id()
    &&& b.drop_rate() == a.drop_rate()
    &&& b.neighbors() == a.neighbors()
    &&& b.crashed() == a.crashed()
    &&& b.log_on() == a.log_on()
}

/// The two states agree on which flood pairs have been seen.
pub open spec fn same_floods(a: Drone, b: Drone) -> bool {
    forall|i: NodeId, f: u64| #[trigger] b.seen(i, f) == a.seen(i, f)
}

/// Nothing about the node changed.
pub open spec fn same_drone(a: Drone, b: Drone) -> bool {
    same_cfg(a, b) && same_floods(a, b)
}

/// `b`'s flood history is `a`'s with exactly the pair (`init`, `fid`) added.
pub open spec fn floods_plus(a: Drone, b: Drone, init: NodeId, fid: u64) -> bool {
    forall|i: NodeId, f: u64| #[trigger] b.seen(i, f) == (a.seen(i, f) || (i == init && f
        == fid))
}

/// Transition of the flood engine on request `req` carried by `packet`.
///
/// An unattributable request (empty trace) is discarded.  A pair already seen
/// draws exactly one flood response back toward where the request came from.
/// A new pair is recorded and the request, trace extended, is re-broadcast to
/// every neighbor but the one it arrived from.
pub open spec fn flood_step_ok(
    pre: Drone,
    post: Drone,
    req: FloodRequest,
    packet: Packet,
    out: Seq<Action>,
) -> bool {
    let t = req.path_trace@;
    if t.len() == 0 {
        same_drone(pre, post) && out.len() == 0
    } else if pre.seen(req.initiator_id, req.flood_id) {
        &&& same_drone(pre, post)
        &&& out.len() == 1
        &&& out[0] matches Action::Send { dest, report_sent, packet: rp }
            && is_flood_response(rp, req, pre.node_id(), packet.session_id) && report_sent == true
            && dest == flood_response_hops(extended_trace(req, pre.node_id()), req.initiator_id)[1]
    } else {
        let from = t.last().0;
        let targets = ids_excluding(pre.neighbors(), from);
        &&& same_cfg(pre, post)
        &&& floods_plus(pre, post, req.initiator_id, req.flood_id)
        &&& out.len() == targets.len()
        &&& forall|j: int|
            #![trigger out[j]]
            0 <= j < targets.len() ==> (out[j] matches Action::Send { dest, report_sent, packet: fp }
                && dest == targets[j] && report_sent == false && is_flood_forward(
                fp,
                req,
                pre.node_id(),
                packet,
            ))
    }
}

/// Transition of the forwarding engine once classification said `Correct` and
/// the packet was not dropped: advance and send when the next hop is a known
/// neighbor; otherwise answer with an `ErrorInRouting` negative
/// acknowledgment, acknowledgment-like payloads going to the controller as a
/// shortcut besides.  `frag` carries a fragment's index, and `None` for the
/// acknowledgment-like payloads.
pub open spec fn forward_step_ok(
    pre: Drone,
    post: Drone,
    packet: Packet,
    frag: Option<u64>,
    out: Seq<Action>,
) -> bool {
    let h = packet.routing_header;
    let next = h.hops@[h.hop_index + 1];
    &&& same_drone(pre, post)
    &&& if pre.neighbors().contains(next) {
        &&& out.len() == 1
        &&& out[0] matches Action::Send { dest, report_sent, packet: fp } && dest == next
            && report_sent == true && is_forwarded(fp, packet)
    } else {
        let nt = NackType::ErrorInRouting(next);
        let fi = if frag is Some {
            frag->0
        } else {
            0
        };
        if frag is Some {
            if nack_route_exists(packet) {
                out.len() == 1 && is_nack_send(out[0], packet, nt, fi)
            } else {
                out.len() == 0
            }
        } else {
            if nack_route_exists(packet) {
                &&& out.len() == 2
                &&& out[0] matches Action::Notify(DroneEvent::ControllerShortcut(p))
                    && same_packet(p, packet)
                &&& is_nack_send(out[1], packet, nt, fi)
            } else {
                &&& out.len() == 1
                &&& out[0] matches Action::Notify(DroneEvent::ControllerShortcut(p))
                    && same_packet(p, packet)
            }
        }
    }
}

/// Transition of one normal (not crashed) packet-processing step.  `roll` is
/// the uniform sample in `[0, PPM_SCALE)` that decides a fragment drop.
pub open spec fn packet_step_ok(
    pre: Drone,
    post: Drone,
    packet: Packet,
    roll: u32,
    out: Seq<Action>,
) -> bool {
    let h = packet.routing_header;
    match classify(pre.node_id(), h.hops@, h.hop_index as int) {
        RoutingCodes::Correct => match packet.pack_type {
            PacketType::MsgFragment(frag) => {
                if roll < pre.drop_rate() {
                    // drop: report it, then answer with a Dropped nack
                    &&& same_drone(pre, post)
                    &&& out.len() >= 1
                    &&& out[0] matches Action::Notify(DroneEvent::PacketDropped(p))
                        && same_packet(p, packet)
                    &&& if nack_route_exists(packet) {
                        out.len() == 2 && is_nack_send(
                            out[1],
                            packet,
                            NackType::Dropped,
                            frag.fragment_index,
                        )
                    } else {
                        out.len() == 1
                    }
                } else {
                    forward_step_ok(pre, post, packet, Some(frag.fragment_index), out)
                }
            },
            PacketType::Ack(_) | PacketType::Nack(_) | PacketType::FloodResponse(_) => {
                forward_step_ok(pre, post, packet, None, out)
            },
            // a flood request never reaches the forwarding engine: defensive
            // branch, no action
            PacketType::FloodRequest(_) => same_drone(pre, post) && out.len() == 0,
        },
        RoutingCodes::DestinationArrived => match packet.pack_type {
            PacketType::FloodRequest(req) => flood_step_ok(pre, post, req, packet, out),
            PacketType::MsgFragment(_) => {
                // a drone is no message endpoint: shortcut to the controller,
                // and a DestinationIsDrone nack back
                &&& same_drone(pre, post)
                &&& out.len() >= 1
                &&& out[0] matches Action::Notify(DroneEvent::ControllerShortcut(p))
                    && same_packet(p, packet)
                &&& if nack_route_exists(packet) {
                    out.len() == 2 && is_nack_send(out[1], packet, NackType::DestinationIsDrone, 0)
                } else {
                    out.len() == 1
                }
            },
            _ => {
                // an acknowledgment-like payload at its nominal destination:
                // completed out-of-band by the controller
                &&& same_drone(pre, post)
                &&& out.len() == 1
                &&& out[0] matches Action::Notify(DroneEvent::ControllerShortcut(p))
                    && same_packet(p, packet)
            },
        },
        RoutingCodes::HopsMismatch => match packet.pack_type {
            PacketType::FloodRequest(req) => flood_step_ok(pre, post, req, packet, out),
            PacketType::MsgFragment(frag) => {
                if h.hop_index < h.hops@.len() {
                    &&& same_drone(pre, post)
                    &&& if nack_route_exists(packet) {
                        out.len() == 1 && is_nack_send(
                            out[0],
                            packet,
                            NackType::UnexpectedRecipient(h.hops@[h.hop_index as int]),
                            frag.fragment_index,
                        )
                    } else {
                        out.len() == 0
                    }
                } else {
                    // unusable header: no safe reverse route exists, so the
                    // nack goes to the controller as a drop report
                    &&& same_drone(pre, post)
                    &&& out.len() == 1
                    &&& out[0] matches Action::Notify(DroneEvent::PacketDropped(p)) && is_nack_of(
                        p,
                        packet,
                        NackType::UnexpectedRecipient(pre.node_id()),
                        0,
                    )
                }
            },
            _ => {
                if h.hop_index < h.hops@.len() {
                    &&& same_drone(pre, post)
                    &&& if nack_route_exists(packet) {
                        &&& out.len() == 2
                        &&& is_nack_send(
                            out[0],
                            packet,
                            NackType::UnexpectedRecipient(h.hops@[h.hop_index as int]),
                            0,
                        )
                        &&& out[1] matches Action::Notify(DroneEvent::ControllerShortcut(p))
                            && same_packet(p, packet)
                    } else {
                        &&& out.len() == 1
                        &&& out[0] matches Action::Notify(DroneEvent::ControllerShortcut(p))
                            && same_packet(p, packet)
                    }
                } else {
                    &&& same_drone(pre, post)
                    &&& out.len() == 1
                    &&& out[0] matches Action::Notify(DroneEvent::ControllerShortcut(p))
                        && same_packet(p, packet)
                }
            },
        },
    }
}

/// While crashed, a fragment or flood request is rejected: nothing but an
/// `ErrorInRouting` nack back toward where the packet came from, and that
/// only when a return route exists.
pub open spec fn crashed_reject_ok(
    pre: Drone,
    post: Drone,
    packet: Packet,
    fi: u64,
    out: Seq<Action>,
) -> bool {
    &&& same_drone(pre, post)
    &&& if nack_route_exists(packet) {
        out.len() == 1 && is_nack_send(out[0], packet, NackType::ErrorInRouting(pre.node_id()), fi)
    } else {
        out.len() == 0
    }
}

/// Transition of one full arrival: a crashed node rejects fragments and flood
/// requests but still serves traffic it committed to before crashing; a live
/// node runs the normal step.
pub open spec fn behaviour_step_ok(
    pre: Drone,
    post: Drone,
    packet: Packet,
    roll: u32,
    out: Seq<Action>,
) -> bool {
    if pre.crashed() {
        match packet.pack_type {
            PacketType::Ack(_) | PacketType::Nack(_) | PacketType::FloodResponse(_) => {
                packet_step_ok(pre, post, packet, roll, out)
            },
            PacketType::MsgFragment(frag) => {
                crashed_reject_ok(pre, post, packet, frag.fragment_index, out)
            },
            PacketType::FloodRequest(_) => crashed_reject_ok(pre, post, packet, 0, out),
        }
    } else {
        packet_step_ok(pre, post, packet, roll, out)
    }
}

} // verus!
