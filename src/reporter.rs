//! Result delivery: a bounded batch buffer and a single park slot for the
//! batch that the collector failed to take.
use crate::structures::{
    FPingResult, GrpcFPingResult, GrpcPingResult, GrpcTcpPingResult, PingResult, TcpPingResult, wire_rtt,
};
use crate::conf::{is_valid_uri, uri_accepted, ConfError};
use vstd::prelude::*;

verus! {

/// A buffer is flushed when it holds this many results.
pub const BATCH_SIZE: usize = 1024;

/// A buffer that is not full is flushed at this period, when not empty.
pub const BATCH_INTERVAL_MILLIS: u64 = 1000;

/// Which event the delivery loop serves next. The order is strict: a parked
/// batch first, then a flush, then a new result.
#[derive(Clone, Copy, Debug, PartialEq, Eq, Structural)]
pub enum Branch {
    /// Send the parked batch again.
    Retry,
    /// Send the buffer.
    Flush,
    /// Wait for a new result (or for the flush ticker).
    Ingest,
}

/// The contents of a park slot, empty when nothing is parked.
pub open spec fn slot_view<T>(slot: Option<Vec<T>>) -> Seq<T> {
    match slot {
        Some(b) => b@,
        None => Seq::empty(),
    }
}

/// Results on their way to the collector: the buffer that fills from the
/// engines and the one batch that failed to go out.
#[derive(Debug)]
pub struct Batcher<T> {
    pub buffer: Vec<T>,
    pub parked: Option<Vec<T>>,
}

impl<T> Batcher<T> {
    pub open spec fn wf(&self) -> bool {
        self.buffer.len() <= BATCH_SIZE
    }

    /// Every result that the collector has not yet taken, oldest first.
    pub open spec fn pending(&self) -> Seq<T> {
        slot_view(self.parked) + self.buffer@
    }

    /// The branch that `next_branch` picks.
    pub open spec fn branch(&self, tick_fired: bool) -> Branch {
        if self.parked.is_some() {
            Branch::Retry
        } else if tick_fired || self.buffer.len() == BATCH_SIZE {
            Branch::Flush
        } else {
            Branch::Ingest
        }
    }

    pub fn new() -> (b: Batcher<T>)
        ensures
            b.wf(),
            b.buffer@.len() == 0,
            b.parked.is_none(),
    {
        Batcher { buffer: Vec::with_capacity(BATCH_SIZE), parked: None }
    }

    /// Picks the next branch of the delivery loop; `tick_fired` tells whether
    /// the flush ticker has fired.
    pub fn next_branch(&self, tick_fired: bool) -> (r: Branch)
        requires
            self.wf(),
        ensures
            r == self.branch(tick_fired),
            r == Branch::Ingest ==> self.buffer.len() < BATCH_SIZE,
    {
        if self.parked.is_some() {
            Branch::Retry
        } else if tick_fired || self.buffer.len() == BATCH_SIZE {
            Branch::Flush
        } else {
            Branch::Ingest
        }
    }

    /// Adds a result at the end of the buffer; tells whether the buffer is now
    /// full.
    pub fn ingest(&mut self, item: T) -> (full: bool)
        requires
            old(self).wf(),
            old(self).buffer.len() < BATCH_SIZE,
        ensures
            final(self).wf(),
            final(self).buffer@ == old(self).buffer@.push(item),
            final(self).parked == old(self).parked,
            final(self).pending() == old(self).pending().push(item),
            full == (final(self).buffer.len() == BATCH_SIZE),
    {
        self.buffer.push(item);
        assert(self.pending() =~= old(self).pending().push(item));
        self.buffer.len() == BATCH_SIZE
    }

    /// Takes the buffer as a batch to send. Nothing goes out while a batch is
    /// parked, nor when the buffer is empty.
    pub fn flush(&mut self) -> (r: Option<Vec<T>>)
        requires
            old(self).wf(),
        ensures
            final(self).wf(),
            final(self).parked == old(self).parked,
            old(self).parked.is_some() || old(self).buffer.len() == 0 ==> r.is_none()
                && final(self).buffer@ == old(self).buffer@,
            old(self).parked.is_none() && old(self).buffer.len() > 0 ==> r.is_some() && r.unwrap()@
                == old(self).buffer@ && final(self).buffer@.len() == 0,
            old(self).pending() == slot_view(r) + final(self).pending(),
    {
        if self.parked.is_some() || self.buffer.len() == 0 {
            assert(old(self).pending() =~= slot_view(None::<Vec<T>>) + self.pending());
            return None;
        }
        let mut batch: Vec<T> = Vec::with_capacity(BATCH_SIZE);
        std::mem::swap(&mut self.buffer, &mut batch);
        let r = Some(batch);
        assert(old(self).pending() =~= slot_view(r) + self.pending());
        r
    }

    /// Parks a batch that the collector did not take.
    pub fn park(&mut self, batch: Vec<T>)
        requires
            old(self).wf(),
            old(self).parked.is_none(),
        ensures
            final(self).wf(),
            final(self).buffer@ == old(self).buffer@,
            final(self).parked == Some(batch),
            final(self).pending() == batch@ + old(self).pending(),
    {
        self.parked = Some(batch);
        assert(self.pending() =~= batch@ + old(self).pending());
    }

    /// Takes the parked batch to send it again; the slot is empty afterwards.
    /// A batch that fails again is parked again.
    pub fn take_parked(&mut self) -> (r: Option<Vec<T>>)
        requires
            old(self).wf(),
        ensures
            final(self).wf(),
            final(self).buffer@ == old(self).buffer@,
            final(self).parked.is_none(),
            r == old(self).parked,
            old(self).pending() == slot_view(r) + final(self).pending(),
    {
        let r = self.parked.take();
        assert(old(self).pending() =~= slot_view(r) + self.pending());
        r
    }
}

/// A report of ICMP results.
#[derive(Clone, Debug)]
pub struct PingReportReq {
    pub agent_id: u32,
    pub results: Vec<GrpcPingResult>,
}

/// A report of TCP-connect results.
#[derive(Clone, Debug)]
pub struct TcpPingReportReq {
    pub agent_id: u32,
    pub results: Vec<GrpcTcpPingResult>,
}

/// A report of one fast-ping burst.
#[derive(Clone, Debug)]
pub struct FPingReportReq {
    pub agent_id: u32,
    pub version: String,
    pub results: Vec<GrpcFPingResult>,
}

/// Builds the requests that carry results to the collector under the agent's
/// identity.
#[derive(Clone, Debug)]
pub struct Reporter {
    pub server_add: String,
    pub agent_id: u32,
}

impl Reporter {
    /// A reporter for the collector at `server_add`, which must be a URI.
    pub fn new(server_add: &str, agent_id: u32) -> (r: Result<Reporter, ConfError>)
        ensures
            uri_accepted(server_add@) <==> r.is_ok(),
            r matches Ok(rep) ==> rep.server_add@ == server_add@ && rep.agent_id == agent_id,
            r matches Err(e) ==> e == ConfError::CollectorUrl,
    {
        if is_valid_uri(server_add) {
            Ok(Reporter { server_add: server_add.to_owned(), agent_id })
        } else {
            Err(ConfError::CollectorUrl)
        }
    }

    /// The request that carries a batch of ICMP results, in batch order.
    pub fn build_ping_request(&self, results: &Vec<PingResult>) -> (req: PingReportReq)
        ensures
            req.agent_id == self.agent_id,
            req.results.len() == results.len(),
            forall|i: int| 0 <= i < results.len() ==> #[trigger] results@[i].encodes_to(req.results@[i]),
    {
        let mut out: Vec<GrpcPingResult> = Vec::with_capacity(results.len());
        let mut i: usize = 0;
        while i < results.len()
            invariant
                i <= results.len(),
                out.len() == i,
                forall|j: int| 0 <= j < i ==> #[trigger] results@[j].encodes_to(out@[j]),
            decreases results.len() - i,
        {
            out.push(results[i].to_wire());
            i += 1;
        }
        PingReportReq { agent_id: self.agent_id, results: out }
    }

    /// The request that carries a batch of TCP-connect results, in batch order.
    pub fn build_tcp_ping_request(&self, results: &Vec<TcpPingResult>) -> (req: TcpPingReportReq)
        ensures
            req.agent_id == self.agent_id,
            req.results.len() == results.len(),
            forall|i: int| 0 <= i < results.len() ==> #[trigger] results@[i].encodes_to(req.results@[i]),
    {
        let mut out: Vec<GrpcTcpPingResult> = Vec::with_capacity(results.len());
        let mut i: usize = 0;
        while i < results.len()
            invariant
                i <= results.len(),
                out.len() == i,
                forall|j: int| 0 <= j < i ==> #[trigger] results@[j].encodes_to(out@[j]),
            decreases results.len() - i,
        {
            out.push(results[i].to_wire());
            i += 1;
        }
        TcpPingReportReq { agent_id: self.agent_id, results: out }
    }

    /// The request that carries one fast-ping burst, tagged with its version.
    pub fn build_fping_request(&self, version: &String, results: &Vec<FPingResult>) -> (req: FPingReportReq)
        ensures
            req.agent_id == self.agent_id,
            req.version@ == version@,
            req.results.len() == results.len(),
            forall|i: int|
                0 <= i < results.len() ==> {
                    &&& (#[trigger] req.results@[i]).target@ == results@[i].target@
                    &&& req.results@[i].is_timeout == results@[i].is_timeout
                    &&& req.results@[i].rtt_micros == wire_rtt(results@[i].is_timeout, results@[i].rtt_nanos)
                },
    {
        let mut out: Vec<GrpcFPingResult> = Vec::with_capacity(results.len());
        let mut i: usize = 0;
        while i < results.len()
            invariant
                i <= results.len(),
                out.len() == i,
                forall|j: int|
                    0 <= j < i ==> {
                        &&& (#[trigger] out@[j]).target@ == results@[j].target@
                        &&& out@[j].is_timeout == results@[j].is_timeout
                        &&& out@[j].rtt_micros == wire_rtt(results@[j].is_timeout, results@[j].rtt_nanos)
                    },
            decreases results.len() - i,
        {
            out.push(results[i].to_wire());
            i += 1;
        }
        FPingReportReq { agent_id: self.agent_id, version: version.clone(), results: out }
    }
}

} // verus!
