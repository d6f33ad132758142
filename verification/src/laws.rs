//! The library's stated laws: properties of the model that hold for every
//! input, proved once and for all.

use vstd::prelude::*;
use crate::types::{Action, FloodRequest, NackType, NodeId, Packet, PacketType, RoutingCodes};
use crate::model::{
    behaviour_step_ok, classify, flood_step_ok, ids_excluding, nack_hops, packet_step_ok,
    same_drone,
};
use crate::drone::Drone;

verus! {

/// Classification law: a valid header whose current hop names this node
/// classifies `Correct` when the cursor is not on the last hop; when it is,
/// arrival wins over the identity check.
pub proof fn lemma_classify_own_hop(id: NodeId, hops: Seq<NodeId>, k: int)
    requires
        0 <= k < hops.len(),
        hops[k] == id,
    ensures
        k < hops.len() - 1 ==> classify(id, hops, k) == RoutingCodes::Correct,
        k == hops.len() - 1 ==> classify(id, hops, k) == RoutingCodes::DestinationArrived,
{
}

/// Re-broadcast exclusion law: the targets of a flood re-broadcast never
/// include the neighbor the request was attributed to, and — the table
/// holding each id once — reach every other neighbor exactly once.
pub proof fn lemma_ids_excluding(s: Seq<NodeId>, from: NodeId)
    ensures
        !ids_excluding(s, from).contains(from),
        forall|n: NodeId| n != from ==> (#[trigger] ids_excluding(s, from).contains(n)
            == s.contains(n)),
        s.no_duplicates() ==> ids_excluding(s, from).no_duplicates(),
    decreases s.len(),
{
    if s.len() == 0 {
    } else {
        let sd = s.drop_last();
        lemma_ids_excluding(sd, from);
        let rest = ids_excluding(sd, from);
        let res = ids_excluding(s, from);
        assert forall|n: NodeId| #[trigger] s.contains(n) implies (sd.contains(n) || s.last()
            == n) by {
            let i = choose|i: int| 0 <= i < s.len() && s[i] == n;
            if i < s.len() - 1 {
                assert(sd[i] == n);
            }
        }
        assert forall|n: NodeId| #[trigger] sd.contains(n) implies s.contains(n) by {
            let i = choose|i: int| 0 <= i < sd.len() && sd[i] == n;
            assert(s[i] == n);
        }
        assert(s[s.len() - 1] == s.last());
        assert(s.contains(s.last()));
        if s.last() == from {
            assert(res == rest);
            assert forall|n: NodeId| n != from implies (#[trigger] res.contains(n) == s.contains(
                n,
            )) by {
                if s.contains(n) {
                    assert(sd.contains(n) || s.last() == n);
                }
            }
        } else {
            assert(res == rest.push(s.last()));
            assert forall|n: NodeId| #[trigger] res.contains(n) implies (rest.contains(n) || n
                == s.last()) by {
                let i = choose|i: int| 0 <= i < res.len() && res[i] == n;
                if i < rest.len() {
                    assert(rest[i] == n);
                }
            }
            assert forall|n: NodeId| #[trigger] rest.contains(n) implies res.contains(n) by {
                let i = choose|i: int| 0 <= i < rest.len() && rest[i] == n;
                assert(res[i] == n);
            }
            assert(res[rest.len() as int] == s.last());
            assert(res.contains(s.last()));
            assert(!res.contains(from));
            assert forall|n: NodeId| n != from implies (#[trigger] res.contains(n) == s.contains(
                n,
            )) by {
                if res.contains(n) {
                    assert(rest.contains(n) || n == s.last());
                    if rest.contains(n) {
                        assert(sd.contains(n));
                        assert(s.contains(n));
                    }
                }
                if s.contains(n) {
                    assert(sd.contains(n) || s.last() == n);
                    if n != s.last() {
                        assert(rest.contains(n));
                        assert(res.contains(n));
                    }
                }
            }
            if s.no_duplicates() {
                assert(sd.no_duplicates()) by {
                    assert forall|i: int, j: int|
                        0 <= i < sd.len() && 0 <= j < sd.len() && i != j implies sd[i] != sd[j] by {
                        assert(s[i] == sd[i] && s[j] == sd[j]);
                    }
                }
                assert(!sd.contains(s.last())) by {
                    if sd.contains(s.last()) {
                        let i = choose|i: int| 0 <= i < sd.len() && sd[i] == s.last();
                        assert(s[i] == s[s.len() - 1]);
                    }
                }
                assert(!rest.contains(s.last()));
                assert forall|i: int, j: int|
                    0 <= i < res.len() && 0 <= j < res.len() && i != j implies res[i] != res[j] by {
                    if i < rest.len() && j < rest.len() {
                    } else if i == rest.len() {
                        assert(rest.contains(rest[j]));
                    } else if j == rest.len() {
                        assert(rest.contains(rest[i]));
                    }
                }
            }
        }
    }
}

/// Flood deduplication law: after the flood engine has handled a request
/// once (attributably), handling the same (initiator, flood id) pair again
/// draws exactly one flood response and never a re-broadcast.
pub proof fn lemma_repeated_flood_draws_response(
    pre: Drone,
    mid: Drone,
    post: Drone,
    req1: FloodRequest,
    req2: FloodRequest,
    carrier1: Packet,
    carrier2: Packet,
    out1: Seq<Action>,
    out2: Seq<Action>,
)
    requires
        req1.path_trace@.len() > 0,
        req2.path_trace@.len() > 0,
        req2.initiator_id == req1.initiator_id,
        req2.flood_id == req1.flood_id,
        flood_step_ok(pre, mid, req1, carrier1, out1),
        flood_step_ok(mid, post, req2, carrier2, out2),
    ensures
        out2.len() == 1,
        out2[0] matches Action::Send { packet, .. } && packet.pack_type is FloodResponse,
        forall|j: int|
            #![trigger out2[j]]
            0 <= j < out2.len() ==> !(out2[j] matches Action::Send { packet, .. }
                && packet.pack_type is FloodRequest),
        same_drone(mid, post),
{
    assert(mid.seen(req2.initiator_id, req2.flood_id));
}

/// Path-reversal law: for an original header with hops `[h0, ..., hk, ...]`
/// and a valid cursor `k`, the synthesized nack header is exactly
/// `[hk, ..., h1, h0]`.
pub proof fn lemma_nack_path_reversal(hops: Seq<NodeId>, k: int)
    requires
        0 <= k < hops.len(),
    ensures
        nack_hops(hops, k).len() == k + 1,
        forall|j: int| 0 <= j <= k ==> nack_hops(hops, k)[j] == hops[k - j],
{
    let sub = hops.subrange(0, k + 1);
    assert(sub.len() == k + 1);
    assert forall|j: int| 0 <= j <= k implies nack_hops(hops, k)[j] == hops[k - j] by {
        assert(nack_hops(hops, k)[j] == sub[k - j]);
    }
}

/// Flood-history growth law: a processing step never forgets a seen
/// (initiator, flood id) pair — the history grows monotonically for the
/// node's lifetime.
pub proof fn lemma_flood_history_monotone(
    pre: Drone,
    post: Drone,
    packet: Packet,
    roll: u32,
    out: Seq<Action>,
)
    requires
        behaviour_step_ok(pre, post, packet, roll, out),
    ensures
        forall|i: NodeId, f: u64| pre.seen(i, f) ==> #[trigger] post.seen(i, f),
{
}

/// Crash containment law: while crashed, a fragment or flood request never
/// produces a forward — at most one action leaves, and it is the return of
/// an `ErrorInRouting` nack naming this node — and the state does not
/// change.
pub proof fn lemma_crashed_rejects(
    pre: Drone,
    post: Drone,
    packet: Packet,
    roll: u32,
    out: Seq<Action>,
)
    requires
        pre.crashed(),
        packet.pack_type is MsgFragment || packet.pack_type is FloodRequest,
        behaviour_step_ok(pre, post, packet, roll, out),
    ensures
        out.len() <= 1,
        forall|j: int|
            #![trigger out[j]]
            0 <= j < out.len() ==> (out[j] matches Action::Send { packet: np, .. }
                && np.pack_type matches PacketType::Nack(n) && n.nack_type
                == NackType::ErrorInRouting(pre.node_id())),
        same_drone(pre, post),
{
}

/// Crash service law: while crashed, acknowledgment-like traffic the node
/// already committed to — acks, nacks, flood responses — is still processed
/// exactly as in the normal step.
pub proof fn lemma_crashed_still_serves(
    pre: Drone,
    post: Drone,
    packet: Packet,
    roll: u32,
    out: Seq<Action>,
)
    requires
        pre.crashed(),
        packet.pack_type is Ack || packet.pack_type is Nack || packet.pack_type
            is FloodResponse,
        behaviour_step_ok(pre, post, packet, roll, out),
    ensures
        packet_step_ok(pre, post, packet, roll, out),
{
}

} // verus!
