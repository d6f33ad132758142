//! The data the drone works on: routing headers, packets and their payload
//! variants, controller commands and events, and the actions a processing
//! step asks the surrounding I/O layer to perform.

use vstd::prelude::*;

verus! {

/// Identifier of a node in the overlay network.
pub type NodeId = u8;

/// The kind of node a path-trace entry records.
#[derive(Clone, Copy, PartialEq, Eq, Structural, Debug)]
pub enum NodeType {
    Client,
    Drone,
    Server,
}

/// Outcome of classifying an inbound routing header against the node's id.
#[derive(Clone, Copy, PartialEq, Eq, Structural, Debug)]
pub enum RoutingCodes {
    /// The header names this node at a valid, non-final position.
    Correct,
    /// The cursor stands on the last hop: the packet has arrived.
    DestinationArrived,
    /// The cursor is out of bounds, or the hop there is not this node.
    HopsMismatch,
}

/// The explicit, sender-computed path a packet follows, plus a cursor for the
/// hop expected to process it next.
#[derive(Debug)]
pub struct SourceRoutingHeader {
    pub hops: Vec<NodeId>,
    pub hop_index: usize,
}

impl SourceRoutingHeader {
    /// The cursor points at an existing hop.
    pub open spec fn valid(self) -> bool {
        self.hop_index < self.hops@.len()
    }

    pub fn valid_hop_index(&self) -> (b: bool)
        ensures
            b == self.valid(),
    {
        self.hop_index < self.hops.len()
    }

    /// The cursor stands on the final hop of the path.
    pub open spec fn at_last_hop(self) -> bool {
        self.hops@.len() > 0 && self.hop_index == self.hops@.len() - 1
    }

    pub fn is_last_hop(&self) -> (b: bool)
        ensures
            b == self.at_last_hop(),
    {
        self.hops.len() > 0 && self.hop_index == self.hops.len() - 1
    }

    pub fn current_hop(&self) -> (r: Option<NodeId>)
        ensures
            self.valid() ==> r == Some(self.hops@[self.hop_index as int]),
            !self.valid() ==> r is None,
    {
        if self.hop_index < self.hops.len() {
            Some(self.hops[self.hop_index])
        } else {
            None
        }
    }

    pub fn next_hop(&self) -> (r: Option<NodeId>)
        ensures
            self.hop_index + 1 < self.hops@.len() ==> r == Some(
                self.hops@[self.hop_index + 1],
            ),
            self.hop_index + 1 >= self.hops@.len() ==> r is None,
    {
        let l = self.hops.len();
        if self.hop_index < l && self.hop_index + 1 < l {
            Some(self.hops[self.hop_index + 1])
        } else {
            None
        }
    }
}

impl Clone for SourceRoutingHeader {
    fn clone(&self) -> (r: Self)
        ensures
            r.hops@ == self.hops@,
            r.hop_index == self.hop_index,
    {
        SourceRoutingHeader { hops: copy_ids(&self.hops), hop_index: self.hop_index }
    }
}

/// Copies a vector of node identifiers.
pub fn copy_ids(v: &Vec<NodeId>) -> (r: Vec<NodeId>)
    ensures
        r@ == v@,
{
    let mut r: Vec<NodeId> = Vec::new();
    let n = v.len();
    for i in 0..n
        invariant
            n == v@.len(),
            r@ == v@.subrange(0, i as int),
    {
        r.push(v[i]);
        assert(r@ =~= v@.subrange(0, i + 1 as int));
    }
    assert(r@ =~= v@);
    r
}

/// Copies a flood path trace.
pub fn copy_trace(v: &Vec<(NodeId, NodeType)>) -> (r: Vec<(NodeId, NodeType)>)
    ensures
        r@ == v@,
{
    let mut r: Vec<(NodeId, NodeType)> = Vec::new();
    let n = v.len();
    for i in 0..n
        invariant
            n == v@.len(),
            r@ == v@.subrange(0, i as int),
    {
        r.push(v[i]);
        assert(r@ =~= v@.subrange(0, i + 1 as int));
    }
    assert(r@ =~= v@);
    r
}

/// One fragment of a larger message; its content is opaque to the drone.
#[derive(Debug)]
pub struct Fragment {
    pub fragment_index: u64,
    pub total_n_fragments: u64,
    pub length: u8,
    pub data: Vec<u8>,
}

impl Clone for Fragment {
    fn clone(&self) -> (r: Self)
        ensures
            r.fragment_index == self.fragment_index,
            r.total_n_fragments == self.total_n_fragments,
            r.length == self.length,
            r.data@ == self.data@,
    {
        Fragment {
            fragment_index: self.fragment_index,
            total_n_fragments: self.total_n_fragments,
            length: self.length,
            // fragment content is plain bytes, copied like a hop list
            data: copy_ids(&self.data),
        }
    }
}

/// Confirms a fragment's prior delivery.
#[derive(Clone, Copy, PartialEq, Eq, Structural, Debug)]
pub struct Ack {
    pub fragment_index: u64,
}

/// Reason codes a negative acknowledgment can carry.
#[derive(Clone, Copy, PartialEq, Eq, Structural, Debug)]
pub enum NackType {
    ErrorInRouting(NodeId),
    DestinationIsDrone,
    Dropped,
    UnexpectedRecipient(NodeId),
}

/// Rejects a fragment, naming the reason.
#[derive(Clone, Copy, PartialEq, Eq, Structural, Debug)]
pub struct Nack {
    pub fragment_index: u64,
    pub nack_type: NackType,
}

/// Topology-discovery request, identified by (initiator, flood id), carrying
/// the ordered trace of every node visited so far.
#[derive(Debug)]
pub struct FloodRequest {
    pub flood_id: u64,
    pub initiator_id: NodeId,
    pub path_trace: Vec<(NodeId, NodeType)>,
}

impl Clone for FloodRequest {
    fn clone(&self) -> (r: Self)
        ensures
            r.flood_id == self.flood_id,
            r.initiator_id == self.initiator_id,
            r.path_trace@ == self.path_trace@,
    {
        FloodRequest {
            flood_id: self.flood_id,
            initiator_id: self.initiator_id,
            path_trace: copy_trace(&self.path_trace),
        }
    }
}

/// Answer to a flood request, carrying the completed path trace back.
#[derive(Debug)]
pub struct FloodResponse {
    pub flood_id: u64,
    pub path_trace: Vec<(NodeId, NodeType)>,
}

impl Clone for FloodResponse {
    fn clone(&self) -> (r: Self)
        ensures
            r.flood_id == self.flood_id,
            r.path_trace@ == self.path_trace@,
    {
        FloodResponse { flood_id: self.flood_id, path_trace: copy_trace(&self.path_trace) }
    }
}

/// The payload variants a packet can hold.
#[derive(Debug)]
pub enum PacketType {
    MsgFragment(Fragment),
    Ack(Ack),
    Nack(Nack),
    FloodRequest(FloodRequest),
    FloodResponse(FloodResponse),
}

/// A unit of traffic: session correlation token, routing header, payload.
#[derive(Debug)]
pub struct Packet {
    pub pack_type: PacketType,
    pub routing_header: SourceRoutingHeader,
    pub session_id: u64,
}

/// Instruction from the supervising controller.  The channel that accompanies
/// an added neighbor is owned by the I/O layer; the core records the id.
#[derive(Clone, Copy, PartialEq, Eq, Structural, Debug)]
pub enum DroneCommand {
    AddSender(NodeId),
    SetPacketDropRate(u32),
    Crash,
    RemoveSender(NodeId),
}

/// Notification toward the supervising controller.
#[derive(Debug)]
pub enum DroneEvent {
    PacketSent(Packet),
    PacketDropped(Packet),
    ControllerShortcut(Packet),
}

/// One thing the I/O layer is asked to do after a processing step.
#[derive(Debug)]
pub enum Action {
    /// Hand `packet` to the neighbor `dest`.  When `report_sent` holds, a
    /// successful send is reported to the controller as `PacketSent`; a
    /// failed send is always reported as `PacketDropped`.
    Send { dest: NodeId, report_sent: bool, packet: Packet },
    /// Deliver an event to the controller.
    Notify(DroneEvent),
}

} // verus!
