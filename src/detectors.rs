//! The probe engines and their per-target probers, less the sockets and timers
//! that drive them.
use crate::clock::{utc_now, UtcInstant, NANOS_PER_SEC};
use crate::engine::Engine;
use crate::icmp::{
    build_request, classify_reply, echo_request, next_seq, seq_successor, verdict_of, ReplyVerdict, PING_PACKET_LEN,
};
use crate::structures::{
    answered_rtt, rtt_within, FPingCommand, FPingResult, PingCommand, PingResult, TcpPingCommand, TcpPingResult,
};
use vstd::prelude::*;

verus! {

/// Capacity of each engine's result channel to the reporter.
pub const RESULT_CHANNEL_CAPACITY: usize = 1024;

/// The ICMP prober of one target. It owns the sequence counter; the driver
/// owns the socket.
#[derive(Clone, Debug)]
pub struct Pinger {
    pub target: String,
    pub timeout_ms: u32,
    pub len: usize,
    /// Sequence number of the round in flight (zero before the first round).
    pub seq: u16,
}

impl Pinger {
    pub open spec fn wf(&self) -> bool {
        self.len == PING_PACKET_LEN
    }

    /// The prober for an ICMP command.
    pub fn from_ping_command(c: &PingCommand) -> (p: Pinger)
        ensures
            p.wf(),
            p.target@ == c.target@,
            p.timeout_ms == c.timeout_ms,
            p.seq == 0,
    {
        Pinger { target: c.target.clone(), timeout_ms: c.timeout_ms, len: PING_PACKET_LEN, seq: 0 }
    }

    /// The prober for one fast-ping target; its single round carries
    /// sequence 1.
    pub fn from_fping_command(c: &FPingCommand) -> (p: Pinger)
        ensures
            p.wf(),
            p.target@ == c.target@,
            p.timeout_ms == c.timeout_ms,
            p.seq == 0,
            seq_successor(p.seq) == 1,
    {
        Pinger { target: c.target.clone(), timeout_ms: c.timeout_ms, len: PING_PACKET_LEN, seq: 0 }
    }

    /// Starts a round: advances the sequence and returns the echo request to
    /// send.
    pub fn start_round(&mut self) -> (req: Vec<u8>)
        requires
            old(self).wf(),
        ensures
            final(self).wf(),
            final(self).target == old(self).target,
            final(self).timeout_ms == old(self).timeout_ms,
            final(self).seq == seq_successor(old(self).seq),
            final(self).seq != 0,
            req@ == echo_request(final(self).seq, PING_PACKET_LEN as nat),
    {
        self.seq = next_seq(self.seq);
        build_request(self.seq, self.len)
    }

    /// Judges one read of `received` bytes into `buf` against the round in
    /// flight. Only `Matched` ends the round; the driver keeps reading on the
    /// other verdicts until the timeout.
    pub fn judge(&self, buf: &[u8], received: usize) -> (r: ReplyVerdict)
        requires
            self.wf(),
            received <= buf@.len(),
        ensures
            r == verdict_of(buf@, received as nat, PING_PACKET_LEN as nat, self.seq),
    {
        classify_reply(buf, received, self.len, self.seq)
    }

    /// The result of the round sent at `send_at` and answered at `recv_at`.
    pub fn answered(&self, send_at: UtcInstant, recv_at: UtcInstant) -> (r: PingResult)
        ensures
            r.target@ == self.target@,
            r.send_at == send_at,
            !r.is_timeout,
            r.rtt_nanos == Some(answered_rtt(send_at, recv_at, self.timeout_ms)),
            r.consistent(),
            rtt_within(r.rtt_nanos, self.timeout_ms),
    {
        PingResult::answered(self.target.clone(), send_at, recv_at, self.timeout_ms)
    }

    /// The result of the round sent at `send_at` that saw no matching reply
    /// before its timeout.
    pub fn timed_out(&self, send_at: UtcInstant) -> (r: PingResult)
        ensures
            r.target@ == self.target@,
            r.send_at == send_at,
            r.is_timeout,
            r.rtt_nanos.is_none(),
            r.consistent(),
    {
        PingResult::timed_out(self.target.clone(), send_at)
    }
}

/// One ICMP probe round in flight: sent at `send_at`, it ends with exactly one
/// result, on the first matching reply or at the deadline, whichever comes
/// first.
#[derive(Clone, Debug)]
pub struct ProbeRound {
    pub pinger: Pinger,
    pub send_at: UtcInstant,
    pub finished: bool,
}

impl ProbeRound {
    /// A round of `pinger`, whose request went out at `send_at`.
    pub fn new(pinger: Pinger, send_at: UtcInstant) -> (r: ProbeRound)
        ensures
            r.pinger == pinger,
            r.send_at == send_at,
            !r.finished,
    {
        ProbeRound { pinger, send_at, finished: false }
    }

    /// A round of `pinger` whose request goes out now, read from the clock.
    pub fn begin(pinger: Pinger) -> (r: ProbeRound)
        ensures
            r.pinger == pinger,
            r.send_at.secs >= 0,
            r.send_at.nanos < NANOS_PER_SEC,
            !r.finished,
    {
        ProbeRound { pinger, send_at: utc_now(), finished: false }
    }

    /// Takes one read of `received` bytes into `buf`, answered now: as
    /// `on_reply` with the clock's reading as the arrival time.
    pub fn on_reply_now(&mut self, buf: &[u8], received: usize) -> (r: Option<PingResult>)
        requires
            old(self).pinger.wf(),
            received <= buf@.len(),
        ensures
            final(self).pinger == old(self).pinger,
            final(self).send_at == old(self).send_at,
            r.is_some() == (!old(self).finished && verdict_of(
                buf@,
                received as nat,
                PING_PACKET_LEN as nat,
                old(self).pinger.seq,
            ) == ReplyVerdict::Matched),
            final(self).finished == (old(self).finished || r.is_some()),
            r matches Some(res) ==> {
                &&& res.target@ == old(self).pinger.target@
                &&& res.send_at == old(self).send_at
                &&& !res.is_timeout
                &&& res.consistent()
                &&& rtt_within(res.rtt_nanos, old(self).pinger.timeout_ms)
            },
    {
        let recv_at = utc_now();
        self.on_reply(buf, received, recv_at)
    }

    /// Takes one read of `received` bytes into `buf`, answered at `recv_at`.
    /// A matching reply ends an unfinished round with its result; any other
    /// read, and any read after the end, yields nothing.
    pub fn on_reply(&mut self, buf: &[u8], received: usize, recv_at: UtcInstant) -> (r: Option<PingResult>)
        requires
            old(self).pinger.wf(),
            received <= buf@.len(),
        ensures
            final(self).pinger == old(self).pinger,
            final(self).send_at == old(self).send_at,
            r.is_some() == (!old(self).finished && verdict_of(
                buf@,
                received as nat,
                PING_PACKET_LEN as nat,
                old(self).pinger.seq,
            ) == ReplyVerdict::Matched),
            final(self).finished == (old(self).finished || r.is_some()),
            r matches Some(res) ==> {
                &&& res.target@ == old(self).pinger.target@
                &&& res.send_at == old(self).send_at
                &&& !res.is_timeout
                &&& res.rtt_nanos == Some(answered_rtt(old(self).send_at, recv_at, old(self).pinger.timeout_ms))
            },
    {
        if self.finished {
            return None;
        }
        match self.pinger.judge(buf, received) {
            ReplyVerdict::Matched => {
                self.finished = true;
                Some(self.pinger.answered(self.send_at, recv_at))
            },
            _ => None,
        }
    }

    /// Takes the deadline: an unfinished round ends as a timeout; a finished
    /// one yields nothing.
    pub fn on_deadline(&mut self) -> (r: Option<PingResult>)
        ensures
            final(self).pinger == old(self).pinger,
            final(self).send_at == old(self).send_at,
            final(self).finished,
            r.is_some() == !old(self).finished,
            r matches Some(res) ==> {
                &&& res.target@ == old(self).pinger.target@
                &&& res.send_at == old(self).send_at
                &&& res.is_timeout
                &&& res.rtt_nanos.is_none()
            },
    {
        if self.finished {
            return None;
        }
        self.finished = true;
        Some(self.pinger.timed_out(self.send_at))
    }
}

/// The TCP-connect prober of one target.
#[derive(Clone, Debug)]
pub struct TcpPinger {
    pub target: String,
    pub timeout_ms: u32,
    pub interval_ms: u32,
}

impl TcpPinger {
    pub fn from_command(c: &TcpPingCommand) -> (p: TcpPinger)
        ensures
            p.target@ == c.target@,
            p.timeout_ms == c.timeout_ms,
            p.interval_ms == c.interval_ms,
    {
        TcpPinger { target: c.target.clone(), timeout_ms: c.timeout_ms, interval_ms: c.interval_ms }
    }

    /// The result of a connect issued at `send_at` that completed at `recv_at`.
    pub fn answered(&self, send_at: UtcInstant, recv_at: UtcInstant) -> (r: TcpPingResult)
        ensures
            r.target@ == self.target@,
            r.send_at == send_at,
            !r.is_timeout,
            r.rtt_nanos == Some(answered_rtt(send_at, recv_at, self.timeout_ms)),
            r.consistent(),
            rtt_within(r.rtt_nanos, self.timeout_ms),
    {
        TcpPingResult::answered(self.target.clone(), send_at, recv_at, self.timeout_ms)
    }

    /// The result of a connect issued at `send_at` that did not complete
    /// before its timeout.
    pub fn timed_out(&self, send_at: UtcInstant) -> (r: TcpPingResult)
        ensures
            r.target@ == self.target@,
            r.send_at == send_at,
            r.is_timeout,
            r.rtt_nanos.is_none(),
            r.consistent(),
    {
        TcpPingResult::timed_out(self.target.clone(), send_at)
    }
}

/// One TCP-connect round in flight: it ends with exactly one result, when
/// the connection completes or at the deadline, whichever comes first.
#[derive(Clone, Debug)]
pub struct TcpRound {
    pub pinger: TcpPinger,
    pub send_at: UtcInstant,
    pub finished: bool,
}

impl TcpRound {
    /// A round of `pinger` whose connect is issued now, read from the clock.
    pub fn begin(pinger: TcpPinger) -> (r: TcpRound)
        ensures
            r.pinger == pinger,
            r.send_at.secs >= 0,
            r.send_at.nanos < NANOS_PER_SEC,
            !r.finished,
    {
        TcpRound { pinger, send_at: utc_now(), finished: false }
    }

    /// A round of `pinger` whose connect was issued at `send_at`.
    pub fn new(pinger: TcpPinger, send_at: UtcInstant) -> (r: TcpRound)
        ensures
            r.pinger == pinger,
            r.send_at == send_at,
            !r.finished,
    {
        TcpRound { pinger, send_at, finished: false }
    }

    /// Takes the completed connection, at `recv_at`: an unfinished round ends
    /// with its result; a finished one yields nothing.
    pub fn on_connected(&mut self, recv_at: UtcInstant) -> (r: Option<TcpPingResult>)
        ensures
            final(self).pinger == old(self).pinger,
            final(self).send_at == old(self).send_at,
            final(self).finished,
            r.is_some() == !old(self).finished,
            r matches Some(res) ==> {
                &&& res.target@ == old(self).pinger.target@
                &&& res.send_at == old(self).send_at
                &&& !res.is_timeout
                &&& res.rtt_nanos == Some(answered_rtt(old(self).send_at, recv_at, old(self).pinger.timeout_ms))
                &&& res.consistent()
                &&& rtt_within(res.rtt_nanos, old(self).pinger.timeout_ms)
            },
    {
        if self.finished {
            return None;
        }
        self.finished = true;
        Some(self.pinger.answered(self.send_at, recv_at))
    }

    /// Takes the completed connection, now: as `on_connected` with the
    /// clock's reading.
    pub fn on_connected_now(&mut self) -> (r: Option<TcpPingResult>)
        ensures
            final(self).pinger == old(self).pinger,
            final(self).send_at == old(self).send_at,
            final(self).finished,
            r.is_some() == !old(self).finished,
            r matches Some(res) ==> {
                &&& res.target@ == old(self).pinger.target@
                &&& res.send_at == old(self).send_at
                &&& !res.is_timeout
                &&& res.consistent()
                &&& rtt_within(res.rtt_nanos, old(self).pinger.timeout_ms)
            },
    {
        let recv_at = utc_now();
        self.on_connected(recv_at)
    }

    /// Takes the deadline: an unfinished round ends as a timeout; a finished
    /// one yields nothing.
    pub fn on_deadline(&mut self) -> (r: Option<TcpPingResult>)
        ensures
            final(self).pinger == old(self).pinger,
            final(self).send_at == old(self).send_at,
            final(self).finished,
            r.is_some() == !old(self).finished,
            r matches Some(res) ==> {
                &&& res.target@ == old(self).pinger.target@
                &&& res.send_at == old(self).send_at
                &&& res.is_timeout
                &&& res.rtt_nanos.is_none()
                &&& res.consistent()
            },
    {
        if self.finished {
            return None;
        }
        self.finished = true;
        Some(self.pinger.timed_out(self.send_at))
    }
}

/// The ICMP probe engine.
#[derive(Debug)]
pub struct PingDetector {
    pub engine: Engine,
}

impl PingDetector {
    pub fn new() -> (d: PingDetector)
        ensures
            d.engine.wf(),
            d.engine.phase == crate::engine::Phase::Idle,
            d.engine.version_view() == None::<Seq<char>>,
    {
        PingDetector { engine: Engine::new() }
    }
}

/// The TCP-connect probe engine.
#[derive(Debug)]
pub struct TcpPingDetector {
    pub engine: Engine,
}

impl TcpPingDetector {
    pub fn new() -> (d: TcpPingDetector)
        ensures
            d.engine.wf(),
            d.engine.phase == crate::engine::Phase::Idle,
            d.engine.version_view() == None::<Seq<char>>,
    {
        TcpPingDetector { engine: Engine::new() }
    }
}

/// The aggregated outcome of one fast-ping burst.
#[derive(Clone, Debug)]
pub struct FPingReport {
    pub version: String,
    pub results: Vec<FPingResult>,
}

/// The fast-ping engine: one burst per command, no reconciliation.
#[derive(Clone, Copy, Debug)]
pub struct FpingDetector {}

impl FpingDetector {
    /// Aggregates the results of one burst, in the order the probes
    /// completed, under the burst's version.
    pub fn assemble(version: String, pings: &Vec<PingResult>) -> (r: FPingReport)
        ensures
            r.version@ == version@,
            r.results.len() == pings.len(),
            forall|i: int|
                0 <= i < pings.len() ==> {
                    &&& (#[trigger] r.results@[i]).target@ == pings@[i].target@
                    &&& r.results@[i].is_timeout == pings@[i].is_timeout
                    &&& r.results@[i].rtt_nanos == pings@[i].rtt_nanos
                },
    {
        let mut results: Vec<FPingResult> = Vec::with_capacity(pings.len());
        let mut i: usize = 0;
        while i < pings.len()
            invariant
                i <= pings.len(),
                results.len() == i,
                forall|j: int|
                    0 <= j < i ==> {
                        &&& (#[trigger] results@[j]).target@ == pings@[j].target@
                        &&& results@[j].is_timeout == pings@[j].is_timeout
                        &&& results@[j].rtt_nanos == pings@[j].rtt_nanos
                    },
            decreases pings.len() - i,
        {
            results.push(FPingResult::from_ping(&pings[i]));
            i += 1;
        }
        FPingReport { version, results }
    }
}

} // verus!
