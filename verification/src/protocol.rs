//! Protocol abstraction: each supported treadmill family exposes its identity,
//! communication mode, handshake, polling queries and decoder behind one
//! capability surface, so the reconciliation engine never needs to know which
//! protocol is active. Also the small state machines the transport loop leans
//! on: the pending-query queue and the polling accumulator.

use vstd::prelude::*;

use crate::lifespan::{
    parse_lifespan_response, spec_parse_lifespan, DecodeError, LifeSpanQuery, LIFESPAN_CHAR_UUID,
};
use crate::reading::TreadmillData;

verus! {

/// Communication mode of a protocol.
#[derive(Clone, Copy, Debug, PartialEq, Eq, Structural)]
pub enum ProtocolMode {
    /// The device pushes notifications on its own.
    Passive,
    /// The device must be polled, one query every `interval_ms` milliseconds.
    Polling { interval_ms: u64 },
}

/// One handshake command: bytes to write, then a pause.
#[derive(Clone, Debug, PartialEq, Eq)]
pub struct HandshakeCommand {
    /// The bytes to write to the device.
    pub data: Vec<u8>,
    /// How long to wait after writing, in milliseconds.
    pub delay_after_ms: u64,
}

/// Query types a polling protocol can cycle through.
#[derive(Clone, Copy, Debug, PartialEq, Eq, Structural)]
pub enum QueryType {
    Speed,
    Distance,
    Calories,
    Steps,
    Time,
    HeartRate,
    Incline,
}

/// The polling protocol spoken by one family of walking-pad treadmills over
/// the vendor characteristic `LIFESPAN_CHAR_UUID`: a four-command handshake,
/// then a five-query polling cycle ending in the time query.
#[derive(Clone, Copy, Debug)]
pub struct LifeSpanProtocol;

/// The query cycle of the polling protocol, in order; the time query closes
/// a cycle.
pub open spec fn spec_polling_queries() -> Seq<QueryType> {
    seq![
        QueryType::Steps,
        QueryType::Distance,
        QueryType::Calories,
        QueryType::Speed,
        QueryType::Time,
    ]
}

/// The query of this protocol that answers a generic query type, if any.
pub open spec fn spec_lifespan_query(q: QueryType) -> Option<LifeSpanQuery> {
    match q {
        QueryType::Steps => Some(LifeSpanQuery::Steps),
        QueryType::Distance => Some(LifeSpanQuery::Distance),
        QueryType::Calories => Some(LifeSpanQuery::Calories),
        QueryType::Speed => Some(LifeSpanQuery::Speed),
        QueryType::Time => Some(LifeSpanQuery::Time),
        QueryType::HeartRate => None,
        QueryType::Incline => None,
    }
}

impl LifeSpanProtocol {
    /// Human-readable name of the protocol.
    pub fn name(&self) -> (r: &'static str)
        ensures
            r@ == "LifeSpan Proprietary"@,
    {
        "LifeSpan Proprietary"
    }

    /// The 128-bit value of the characteristic UUID to subscribe to.
    pub fn characteristic_uuid(&self) -> (r: u128)
        ensures
            r == LIFESPAN_CHAR_UUID,
    {
        LIFESPAN_CHAR_UUID
    }

    /// This protocol must be polled.
    pub fn mode(&self) -> (r: ProtocolMode)
        ensures
            r == (ProtocolMode::Polling { interval_ms: 300u64 }),
    {
        ProtocolMode::Polling { interval_ms: 300 }
    }

    /// The handshake commands to send after connecting, in order, each
    /// followed by a short pause.
    pub fn handshake_commands(&self) -> (r: Vec<HandshakeCommand>)
        ensures
            r@.len() == 4,
            forall|i: int| 0 <= i < 4 ==> (#[trigger] r@[i]).delay_after_ms == 100,
            r@[0].data@ == seq![0x02u8, 0x00u8, 0x00u8, 0x00u8, 0x00u8],
            r@[1].data@ == seq![0xC2u8, 0x00u8, 0x00u8, 0x00u8, 0x00u8],
            r@[2].data@ == seq![0xE9u8, 0xFFu8, 0x00u8, 0x00u8, 0x00u8],
            r@[3].data@ == seq![0xE4u8, 0x00u8, 0xF4u8, 0x00u8, 0x00u8],
    {
        let mut cmds: Vec<HandshakeCommand> = Vec::new();
        cmds.push(HandshakeCommand { data: vec![0x02, 0x00, 0x00, 0x00, 0x00], delay_after_ms: 100 });
        cmds.push(HandshakeCommand { data: vec![0xC2, 0x00, 0x00, 0x00, 0x00], delay_after_ms: 100 });
        cmds.push(HandshakeCommand { data: vec![0xE9, 0xFF, 0x00, 0x00, 0x00], delay_after_ms: 100 });
        cmds.push(HandshakeCommand { data: vec![0xE4, 0x00, 0xF4, 0x00, 0x00], delay_after_ms: 100 });
        cmds
    }

    /// The queries to cycle through, in order.
    pub fn polling_queries(&self) -> (r: Vec<QueryType>)
        ensures
            r@ == spec_polling_queries(),
    {
        let r = vec![
            QueryType::Steps,
            QueryType::Distance,
            QueryType::Calories,
            QueryType::Speed,
            QueryType::Time,
        ];
        proof {
            assert(r@ =~= spec_polling_queries());
        }
        r
    }

    /// The command bytes for a query, or nothing for a query this protocol
    /// cannot ask.
    pub fn query_command(&self, query: QueryType) -> (r: Option<Vec<u8>>)
        ensures
            match spec_lifespan_query(query) {
                Some(q) => r matches Some(cmd) && cmd@ == q.spec_command(),
                None => r is None,
            },
    {
        let q = match query {
            QueryType::Steps => LifeSpanQuery::Steps,
            QueryType::Distance => LifeSpanQuery::Distance,
            QueryType::Calories => LifeSpanQuery::Calories,
            QueryType::Speed => LifeSpanQuery::Speed,
            QueryType::Time => LifeSpanQuery::Time,
            QueryType::HeartRate => {
                return None;
            },
            QueryType::Incline => {
                return None;
            },
        };
        let cmd = q.command();
        let mut v: Vec<u8> = Vec::new();
        v.push(cmd[0]);
        v.push(cmd[1]);
        v.push(cmd[2]);
        v.push(cmd[3]);
        v.push(cmd[4]);
        proof {
            assert(v@ =~= q.spec_command());
        }
        Some(v)
    }

    /// Decode one frame. Frames of this protocol are not self-describing, so
    /// the caller must say which query the frame answers; a frame with no
    /// query, or one for a query this protocol cannot ask, is a decode error.
    pub fn parse_data(&self, data: &[u8], query: Option<QueryType>) -> (r: Result<
        TreadmillData,
        DecodeError,
    >)
        ensures
            match query {
                None => r == Err::<TreadmillData, DecodeError>(DecodeError::MissingQuery),
                Some(q) => match spec_lifespan_query(q) {
                    Some(lq) => r == spec_parse_lifespan(data@, lq),
                    None => r == Err::<TreadmillData, DecodeError>(DecodeError::UnsupportedQuery),
                },
            },
    {
        let q = match query {
            Some(q) => q,
            None => {
                return Err(DecodeError::MissingQuery);
            },
        };
        let lq = match q {
            QueryType::Steps => LifeSpanQuery::Steps,
            QueryType::Distance => LifeSpanQuery::Distance,
            QueryType::Calories => LifeSpanQuery::Calories,
            QueryType::Speed => LifeSpanQuery::Speed,
            QueryType::Time => LifeSpanQuery::Time,
            QueryType::HeartRate => {
                return Err(DecodeError::UnsupportedQuery);
            },
            QueryType::Incline => {
                return Err(DecodeError::UnsupportedQuery);
            },
        };
        parse_lifespan_response(data, lq)
    }

    /// Whether this query closes one polling cycle: the time query is the
    /// last of the cycle, so its answer completes one logical reading.
    pub fn is_cycle_complete(&self, query: QueryType) -> (r: bool)
        ensures
            r == (query is Time),
    {
        match query {
            QueryType::Time => true,
            _ => false,
        }
    }
}

/// Pick the protocol for a device from the characteristic UUIDs it exposes
/// (as 128-bit values): the first registered protocol whose characteristic is
/// present wins. Returns nothing when no known protocol matches; the caller
/// should then list the characteristics for diagnosis.
pub fn detect_protocol(characteristic_uuids: &Vec<u128>) -> (r: Option<LifeSpanProtocol>)
    ensures
        (r is Some) == characteristic_uuids@.contains(LIFESPAN_CHAR_UUID),
{
    let n = characteristic_uuids.len();
    let mut i: usize = 0;
    while i < n
        invariant
            n == characteristic_uuids@.len(),
            0 <= i <= n,
            forall|j: int| 0 <= j < i ==> characteristic_uuids@[j] != LIFESPAN_CHAR_UUID,
        decreases n - i,
    {
        if characteristic_uuids[i] == LIFESPAN_CHAR_UUID {
            return Some(LifeSpanProtocol);
        }
        i = i + 1;
    }
    proof {
        assert(!characteristic_uuids@.contains(LIFESPAN_CHAR_UUID));
    }
    None
}

/// The characteristic UUIDs of every supported protocol, with each protocol's
/// name, for diagnostics.
pub fn supported_protocol_uuids() -> (r: Vec<(u128, &'static str)>)
    ensures
        r@.len() == 1,
        r@[0].0 == LIFESPAN_CHAR_UUID,
        r@[0].1@ == "LifeSpan Proprietary"@,
{
    let mut v: Vec<(u128, &'static str)> = Vec::new();
    v.push((LIFESPAN_CHAR_UUID, "LifeSpan Proprietary"));
    v
}

/// Most queries the queue will hold: a bound against unbounded growth when
/// the device stops answering; beyond it the oldest query is evicted.
pub const PENDING_QUERY_LIMIT: usize = 20;

/// The outstanding-query FIFO of a polling protocol: the poll task enqueues
/// each query it sends, and each arriving frame is attributed to the oldest
/// outstanding query.
#[derive(Clone, Debug)]
pub struct PendingQueries {
    /// Outstanding queries, oldest first.
    pub queries: Vec<LifeSpanQuery>,
}

impl PendingQueries {
    /// The queue never grows past its bound.
    pub open spec fn wf(self) -> bool {
        self.queries@.len() <= PENDING_QUERY_LIMIT
    }

    /// An empty queue.
    pub fn new() -> (r: PendingQueries)
        ensures
            r.wf(),
            r.queries@.len() == 0,
    {
        PendingQueries { queries: Vec::new() }
    }

    /// Enqueue a just-sent query; when the queue is full, the oldest
    /// outstanding query is evicted first (the device has stopped answering
    /// it).
    pub fn push_sent(&mut self, q: LifeSpanQuery)
        requires
            old(self).wf(),
        ensures
            final(self).wf(),
            old(self).queries@.len() < PENDING_QUERY_LIMIT ==> final(self).queries@ == old(self).queries@.push(q),
            old(self).queries@.len() == PENDING_QUERY_LIMIT ==> final(self).queries@ == old(self).queries@.subrange(1, PENDING_QUERY_LIMIT as int).push(q),
    {
        if self.queries.len() == PENDING_QUERY_LIMIT {
            self.queries.remove(0);
            proof {
                assert(self.queries@ =~= old(self).queries@.subrange(1, PENDING_QUERY_LIMIT as int));
            }
        }
        self.queries.push(q);
    }

    /// Take the oldest outstanding query, which the frame that just arrived
    /// answers; nothing when no query is outstanding.
    pub fn pop_oldest(&mut self) -> (r: Option<LifeSpanQuery>)
        requires
            old(self).wf(),
        ensures
            final(self).wf(),
            old(self).queries@.len() == 0 ==> r is None && final(self).queries@ == old(self).queries@,
            old(self).queries@.len() > 0 ==> r == Some(old(self).queries@[0]) && final(self).queries@ == old(self).queries@.drop_first(),
    {
        if self.queries.len() == 0 {
            None
        } else {
            let q = self.queries.remove(0);
            proof {
                assert(self.queries@ =~= old(self).queries@.drop_first());
            }
            Some(q)
        }
    }
}

/// Accumulates the single-field answers of one polling cycle into one logical
/// reading, and emits it when the cycle-closing query is answered.
#[derive(Clone, Copy, Debug)]
pub struct PollAccumulator {
    /// The fields gathered so far in this cycle.
    pub partial: TreadmillData,
}

impl PollAccumulator {
    /// An accumulator with nothing gathered.
    pub fn new() -> (r: PollAccumulator)
        ensures
            r.partial == TreadmillData::empty_spec(),
    {
        PollAccumulator { partial: TreadmillData::empty() }
    }

    /// Fold one answered query into the cycle. When the answering query
    /// closes the cycle, the whole accumulated reading is returned and the
    /// accumulator resets; otherwise nothing is emitted yet.
    pub fn absorb(&mut self, proto: &LifeSpanProtocol, query: QueryType, partial: &TreadmillData)
        -> (r: Option<TreadmillData>)
        ensures
            query is Time ==> r == Some(old(self).partial.merged(*partial)) && final(self).partial
                == TreadmillData::empty_spec(),
            !(query is Time) ==> r is None && final(self).partial == old(self).partial.merged(
                *partial,
            ),
    {
        self.partial.merge_from(partial);
        if proto.is_cycle_complete(query) {
            let complete = self.partial;
            self.partial = TreadmillData::empty();
            Some(complete)
        } else {
            None
        }
    }
}

} // verus!
