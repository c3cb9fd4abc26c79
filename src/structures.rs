//! The agent's data model: probe commands, probe results, their wire forms and
//! the conversions between the two.
use crate::clock::{clamp, elapsed_nanos_capped, UtcInstant, NANOS_PER_MILLI};
use vstd::prelude::*;

verus! {

pub const NANOS_PER_MICRO: u64 = 1_000;

/// An IP address, as the probe engines hand it to their sockets: the address
/// bits as one big-endian integer.
#[derive(Clone, Copy, Debug, PartialEq, Eq, Structural)]
pub enum IpAddress {
    V4(u32),
    V6(u128),
}

/// Desired state of one ICMP probe target.
#[derive(Clone, Debug)]
pub struct PingCommand {
    pub ip: IpAddress,
    /// The target as the controller wrote it; results echo it.
    pub target: String,
    pub interval_ms: u32,
    pub timeout_ms: u32,
}

/// Desired state of one TCP-connect probe target (`host:port`).
#[derive(Clone, Debug)]
pub struct TcpPingCommand {
    pub target: String,
    pub interval_ms: u32,
    pub timeout_ms: u32,
}

/// One target of a fast-ping burst.
#[derive(Clone, Debug)]
pub struct FPingCommand {
    pub ip: IpAddress,
    pub target: String,
    pub timeout_ms: u32,
}

/// A trace-route request.
#[derive(Clone, Debug)]
pub struct MtrCommand {
    pub version: String,
    pub ip: IpAddress,
    pub times: u32,
    pub hop_limit: u32,
    pub timeout_ms: u32,
}

/// The outcome of one ICMP probe round. `rtt_nanos` is present exactly when
/// the probe did not time out.
#[derive(Clone, Debug)]
pub struct PingResult {
    pub target: String,
    pub is_timeout: bool,
    pub send_at: UtcInstant,
    pub rtt_nanos: Option<u64>,
}

/// The outcome of one TCP-connect probe round.
#[derive(Clone, Debug)]
pub struct TcpPingResult {
    pub target: String,
    pub is_timeout: bool,
    pub send_at: UtcInstant,
    pub rtt_nanos: Option<u64>,
}

/// The outcome for one target of a fast-ping burst.
#[derive(Clone, Debug)]
pub struct FPingResult {
    pub target: String,
    pub is_timeout: bool,
    pub rtt_nanos: Option<u64>,
}

/// The outcome for one hop of a trace-route.
#[derive(Clone, Debug)]
pub struct MtrResult {
    pub hop: u32,
    pub ip: String,
    pub is_timeout: bool,
    pub rtt_nanos: Option<u64>,
}

/// An ICMP command as the controller sends it.
#[derive(Clone, Debug)]
pub struct GrpcPingCommand {
    pub ip: String,
    pub interval_ms: u32,
    pub timeout_ms: u32,
}

/// A TCP-connect command as the controller sends it.
#[derive(Clone, Debug)]
pub struct GrpcTcpPingCommand {
    pub target: String,
    pub interval_ms: u32,
    pub timeout_ms: u32,
}

/// A fast-ping target as the controller sends it.
#[derive(Clone, Debug)]
pub struct GrpcFpingCommand {
    pub ip: String,
    pub timeout_ms: u32,
}

/// A trace-route request as the controller sends it.
#[derive(Clone, Debug)]
pub struct MtrCommandResp {
    pub version: String,
    pub ip: String,
    pub times: u32,
    pub hop_limit: u32,
    pub timeout_ms: u32,
}

/// A probe result as the collector receives it: the round-trip time in whole
/// microseconds (0 on a timeout) and the send instant in whole Unix seconds.
#[derive(Clone, Debug)]
pub struct GrpcPingResult {
    pub target: String,
    pub is_timeout: bool,
    pub rtt_micros: u32,
    pub send_at: i64,
}

/// A TCP-connect result as the collector receives it.
#[derive(Clone, Debug)]
pub struct GrpcTcpPingResult {
    pub target: String,
    pub is_timeout: bool,
    pub rtt_micros: u32,
    pub send_at: i64,
}

/// A fast-ping result as the collector receives it.
#[derive(Clone, Debug)]
pub struct GrpcFPingResult {
    pub target: String,
    pub is_timeout: bool,
    pub rtt_micros: u32,
}

/// A trace-route hop as the collector receives it.
#[derive(Clone, Debug)]
pub struct GrpcMtrResult {
    pub hop: u32,
    pub ip: String,
    pub is_timeout: bool,
    pub rtt_micros: u32,
}

/// A probe timeout in nanoseconds.
pub open spec fn timeout_nanos(timeout_ms: u32) -> int {
    timeout_ms * NANOS_PER_MILLI
}

/// A result is consistent when it holds a round-trip time exactly when it is
/// not a timeout.
pub open spec fn outcome_consistent(is_timeout: bool, rtt_nanos: Option<u64>) -> bool {
    is_timeout != rtt_nanos.is_some()
}

/// A round-trip time, where there is one, lies within the probe's timeout.
pub open spec fn rtt_within(rtt_nanos: Option<u64>, timeout_ms: u32) -> bool {
    rtt_nanos matches Some(rtt) ==> 0 <= rtt <= timeout_nanos(timeout_ms)
}

/// A round-trip time in whole microseconds, saturated to 32 bits; 0 on a timeout.
pub open spec fn wire_rtt(is_timeout: bool, rtt_nanos: Option<u64>) -> u32 {
    match rtt_nanos {
        Some(rtt) if !is_timeout => {
            if rtt / NANOS_PER_MICRO > u32::MAX {
                u32::MAX
            } else {
                (rtt / NANOS_PER_MICRO) as u32
            }
        },
        _ => 0,
    }
}

/// The round-trip time that a wire record stands for.
pub open spec fn rtt_from_wire(is_timeout: bool, rtt_micros: u32) -> Option<u64> {
    if is_timeout {
        None
    } else {
        Some((rtt_micros * NANOS_PER_MICRO) as u64)
    }
}

/// A round-trip time rounded down to whole microseconds.
pub open spec fn rtt_to_micros_precision(rtt_nanos: Option<u64>) -> Option<u64> {
    match rtt_nanos {
        Some(rtt) => Some((rtt / NANOS_PER_MICRO * NANOS_PER_MICRO) as u64),
        None => None,
    }
}

/// Encodes a round-trip time for the wire.
pub fn encode_rtt(is_timeout: bool, rtt_nanos: Option<u64>) -> (r: u32)
    ensures
        r == wire_rtt(is_timeout, rtt_nanos),
{
    match rtt_nanos {
        Some(rtt) if !is_timeout => {
            let micros = rtt / NANOS_PER_MICRO;
            if micros > u32::MAX as u64 {
                u32::MAX
            } else {
                micros as u32
            }
        },
        _ => 0,
    }
}

/// Decodes a round-trip time from the wire.
pub fn decode_rtt(is_timeout: bool, rtt_micros: u32) -> (r: Option<u64>)
    ensures
        r == rtt_from_wire(is_timeout, rtt_micros),
        outcome_consistent(is_timeout, r),
{
    if is_timeout {
        None
    } else {
        Some(rtt_micros as u64 * NANOS_PER_MICRO)
    }
}

/// The round-trip time of a probe answered at `recv_at`: the time since
/// `send_at`, limited to `[0, timeout]`.
pub open spec fn answered_rtt(send_at: UtcInstant, recv_at: UtcInstant, timeout_ms: u32) -> u64 {
    clamp(recv_at.as_nanos() - send_at.as_nanos(), timeout_nanos(timeout_ms)) as u64
}

/// Measures the round-trip time of a probe sent at `send_at` and answered at
/// `recv_at`.
pub fn measure_rtt(send_at: UtcInstant, recv_at: UtcInstant, timeout_ms: u32) -> (r: u64)
    ensures
        r == answered_rtt(send_at, recv_at, timeout_ms),
        rtt_within(Some(r), timeout_ms),
{
    elapsed_nanos_capped(send_at, recv_at, timeout_ms as u64 * NANOS_PER_MILLI)
}

impl PingResult {
    /// The result of a round whose reply arrived at `recv_at`.
    pub fn answered(target: String, send_at: UtcInstant, recv_at: UtcInstant, timeout_ms: u32) -> (r: PingResult)
        ensures
            r.target@ == target@,
            r.send_at == send_at,
            !r.is_timeout,
            r.rtt_nanos == Some(answered_rtt(send_at, recv_at, timeout_ms)),
            r.consistent(),
            rtt_within(r.rtt_nanos, timeout_ms),
    {
        let rtt = measure_rtt(send_at, recv_at, timeout_ms);
        PingResult { target, is_timeout: false, send_at, rtt_nanos: Some(rtt) }
    }

    /// The result of a round whose reply did not arrive in time.
    pub fn timed_out(target: String, send_at: UtcInstant) -> (r: PingResult)
        ensures
            r.target@ == target@,
            r.send_at == send_at,
            r.is_timeout,
            r.rtt_nanos.is_none(),
            r.consistent(),
    {
        PingResult { target, is_timeout: true, send_at, rtt_nanos: None }
    }

    pub open spec fn consistent(&self) -> bool {
        outcome_consistent(self.is_timeout, self.rtt_nanos)
    }

    /// The wire record that stands for `self`.
    pub open spec fn encodes_to(&self, w: GrpcPingResult) -> bool {
        &&& w.target@ == self.target@
        &&& w.is_timeout == self.is_timeout
        &&& w.rtt_micros == wire_rtt(self.is_timeout, self.rtt_nanos)
        &&& w.send_at == self.send_at.secs
    }

    /// The result that a wire record stands for.
    pub open spec fn decodes_from(&self, w: GrpcPingResult) -> bool {
        &&& self.target@ == w.target@
        &&& self.is_timeout == w.is_timeout
        &&& self.rtt_nanos == rtt_from_wire(w.is_timeout, w.rtt_micros)
        &&& self.send_at == (UtcInstant { secs: w.send_at, nanos: 0 })
    }

    /// Encodes the result for the collector.
    pub fn to_wire(&self) -> (w: GrpcPingResult)
        ensures
            self.encodes_to(w),
    {
        GrpcPingResult {
            target: self.target.clone(),
            is_timeout: self.is_timeout,
            rtt_micros: encode_rtt(self.is_timeout, self.rtt_nanos),
            send_at: self.send_at.secs,
        }
    }

    /// Decodes a wire record.
    pub fn from_wire(w: &GrpcPingResult) -> (r: PingResult)
        ensures
            r.decodes_from(*w),
            r.consistent(),
    {
        PingResult {
            target: w.target.clone(),
            is_timeout: w.is_timeout,
            rtt_nanos: decode_rtt(w.is_timeout, w.rtt_micros),
            send_at: UtcInstant { secs: w.send_at, nanos: 0 },
        }
    }
}

impl TcpPingResult {
    /// The result of a round whose connection completed at `recv_at`.
    pub fn answered(target: String, send_at: UtcInstant, recv_at: UtcInstant, timeout_ms: u32) -> (r: TcpPingResult)
        ensures
            r.target@ == target@,
            r.send_at == send_at,
            !r.is_timeout,
            r.rtt_nanos == Some(answered_rtt(send_at, recv_at, timeout_ms)),
            r.consistent(),
            rtt_within(r.rtt_nanos, timeout_ms),
    {
        let rtt = measure_rtt(send_at, recv_at, timeout_ms);
        TcpPingResult { target, is_timeout: false, send_at, rtt_nanos: Some(rtt) }
    }

    /// The result of a round whose connection did not complete in time.
    pub fn timed_out(target: String, send_at: UtcInstant) -> (r: TcpPingResult)
        ensures
            r.target@ == target@,
            r.send_at == send_at,
            r.is_timeout,
            r.rtt_nanos.is_none(),
            r.consistent(),
    {
        TcpPingResult { target, is_timeout: true, send_at, rtt_nanos: None }
    }

    pub open spec fn consistent(&self) -> bool {
        outcome_consistent(self.is_timeout, self.rtt_nanos)
    }

    /// The wire record that stands for `self`.
    pub open spec fn encodes_to(&self, w: GrpcTcpPingResult) -> bool {
        &&& w.target@ == self.target@
        &&& w.is_timeout == self.is_timeout
        &&& w.rtt_micros == wire_rtt(self.is_timeout, self.rtt_nanos)
        &&& w.send_at == self.send_at.secs
    }

    /// The result that a wire record stands for.
    pub open spec fn decodes_from(&self, w: GrpcTcpPingResult) -> bool {
        &&& self.target@ == w.target@
        &&& self.is_timeout == w.is_timeout
        &&& self.rtt_nanos == rtt_from_wire(w.is_timeout, w.rtt_micros)
        &&& self.send_at == (UtcInstant { secs: w.send_at, nanos: 0 })
    }

    /// Encodes the result for the collector.
    pub fn to_wire(&self) -> (w: GrpcTcpPingResult)
        ensures
            self.encodes_to(w),
    {
        GrpcTcpPingResult {
            target: self.target.clone(),
            is_timeout: self.is_timeout,
            rtt_micros: encode_rtt(self.is_timeout, self.rtt_nanos),
            send_at: self.send_at.secs,
        }
    }

    /// Decodes a wire record.
    pub fn from_wire(w: &GrpcTcpPingResult) -> (r: TcpPingResult)
        ensures
            r.decodes_from(*w),
            r.consistent(),
    {
        TcpPingResult {
            target: w.target.clone(),
            is_timeout: w.is_timeout,
            rtt_nanos: decode_rtt(w.is_timeout, w.rtt_micros),
            send_at: UtcInstant { secs: w.send_at, nanos: 0 },
        }
    }
}

impl FPingResult {
    /// The fast-ping entry for one answered or timed-out probe.
    pub fn from_ping(r: &PingResult) -> (f: FPingResult)
        ensures
            f.target@ == r.target@,
            f.is_timeout == r.is_timeout,
            f.rtt_nanos == r.rtt_nanos,
    {
        FPingResult { target: r.target.clone(), is_timeout: r.is_timeout, rtt_nanos: r.rtt_nanos }
    }

    /// Encodes the entry for the collector.
    pub fn to_wire(&self) -> (w: GrpcFPingResult)
        ensures
            w.target@ == self.target@,
            w.is_timeout == self.is_timeout,
            w.rtt_micros == wire_rtt(self.is_timeout, self.rtt_nanos),
    {
        GrpcFPingResult {
            target: self.target.clone(),
            is_timeout: self.is_timeout,
            rtt_micros: encode_rtt(self.is_timeout, self.rtt_nanos),
        }
    }
}

impl MtrResult {
    /// Encodes the hop for the collector.
    pub fn to_wire(&self) -> (w: GrpcMtrResult)
        ensures
            w.hop == self.hop,
            w.ip@ == self.ip@,
            w.is_timeout == self.is_timeout,
            w.rtt_micros == wire_rtt(self.is_timeout, self.rtt_nanos),
    {
        GrpcMtrResult {
            hop: self.hop,
            ip: self.ip.clone(),
            is_timeout: self.is_timeout,
            rtt_micros: encode_rtt(self.is_timeout, self.rtt_nanos),
        }
    }
}

/// Encoding a consistent result and decoding it again gives the same result up
/// to the wire's precision: the round-trip time rounded down to whole
/// microseconds and the send instant truncated to whole seconds. This holds for
/// every round-trip time under 2^32 microseconds (over an hour).
pub proof fn lemma_ping_result_round_trip(r: PingResult, w: GrpcPingResult, d: PingResult)
    requires
        r.consistent(),
        r.rtt_nanos matches Some(rtt) ==> rtt / NANOS_PER_MICRO <= u32::MAX,
        r.encodes_to(w),
        d.decodes_from(w),
    ensures
        d.target@ == r.target@,
        d.is_timeout == r.is_timeout,
        d.rtt_nanos == rtt_to_micros_precision(r.rtt_nanos),
        d.send_at == r.send_at.truncated(),
        d.consistent(),
{
}

/// The same law for TCP-connect results.
pub proof fn lemma_tcp_ping_result_round_trip(r: TcpPingResult, w: GrpcTcpPingResult, d: TcpPingResult)
    requires
        r.consistent(),
        r.rtt_nanos matches Some(rtt) ==> rtt / NANOS_PER_MICRO <= u32::MAX,
        r.encodes_to(w),
        d.decodes_from(w),
    ensures
        d.target@ == r.target@,
        d.is_timeout == r.is_timeout,
        d.rtt_nanos == rtt_to_micros_precision(r.rtt_nanos),
        d.send_at == r.send_at.truncated(),
        d.consistent(),
{
}

/// Decoding a wire record and encoding it again gives the record back, when
/// the record is canonical: a timeout carries a zero round-trip time.
pub proof fn lemma_ping_wire_round_trip(w: GrpcPingResult, d: PingResult, e: GrpcPingResult)
    requires
        w.is_timeout ==> w.rtt_micros == 0,
        d.decodes_from(w),
        d.encodes_to(e),
    ensures
        e.target@ == w.target@,
        e.is_timeout == w.is_timeout,
        e.rtt_micros == w.rtt_micros,
        e.send_at == w.send_at,
{
}


/// Whether an ICMP command can run: its address parsed and both durations
/// are positive.
pub open spec fn ping_entry_valid(c: GrpcPingCommand, ip: Option<IpAddress>) -> bool {
    ip.is_some() && c.interval_ms > 0 && c.timeout_ms > 0
}

/// `p` is the command that `c`, with its address parsed to `ip`, stands for.
pub open spec fn ping_converted(c: GrpcPingCommand, ip: IpAddress, p: PingCommand) -> bool {
    &&& p.ip == ip
    &&& p.target@ == c.ip@
    &&& p.interval_ms == c.interval_ms
    &&& p.timeout_ms == c.timeout_ms
}

/// Whether a TCP-connect command can run: both durations are positive.
pub open spec fn tcp_entry_valid(c: GrpcTcpPingCommand) -> bool {
    c.interval_ms > 0 && c.timeout_ms > 0
}

/// `p` is the command that `c` stands for.
pub open spec fn tcp_converted(c: GrpcTcpPingCommand, p: TcpPingCommand) -> bool {
    &&& p.target@ == c.target@
    &&& p.interval_ms == c.interval_ms
    &&& p.timeout_ms == c.timeout_ms
}

/// Whether a fast-ping target can be probed: its address parsed and its
/// timeout is positive.
pub open spec fn fping_entry_valid(c: GrpcFpingCommand, ip: Option<IpAddress>) -> bool {
    ip.is_some() && c.timeout_ms > 0
}

/// `p` is the target that `c`, with its address parsed to `ip`, stands for.
pub open spec fn fping_converted(c: GrpcFpingCommand, ip: IpAddress, p: FPingCommand) -> bool {
    &&& p.ip == ip
    &&& p.target@ == c.ip@
    &&& p.timeout_ms == c.timeout_ms
}

impl PingCommand {
    /// The command that a wire entry stands for, given its parsed address; none
    /// where the entry cannot run.
    pub fn from_wire(c: &GrpcPingCommand, ip: Option<IpAddress>) -> (r: Option<PingCommand>)
        ensures
            r.is_some() == ping_entry_valid(*c, ip),
            r matches Some(p) ==> ping_converted(*c, ip.unwrap(), p),
    {
        match ip {
            Some(ip) if c.interval_ms > 0 && c.timeout_ms > 0 => Some(
                PingCommand { ip, target: c.ip.clone(), interval_ms: c.interval_ms, timeout_ms: c.timeout_ms },
            ),
            _ => None,
        }
    }
}

impl TcpPingCommand {
    /// The command that a wire entry stands for; none where it cannot run.
    pub fn from_wire(c: &GrpcTcpPingCommand) -> (r: Option<TcpPingCommand>)
        ensures
            r.is_some() == tcp_entry_valid(*c),
            r matches Some(p) ==> tcp_converted(*c, p),
    {
        if c.interval_ms > 0 && c.timeout_ms > 0 {
            Some(TcpPingCommand { target: c.target.clone(), interval_ms: c.interval_ms, timeout_ms: c.timeout_ms })
        } else {
            None
        }
    }
}

impl FPingCommand {
    /// The target that a wire entry stands for, given its parsed address; none
    /// where it cannot be probed.
    pub fn from_wire(c: &GrpcFpingCommand, ip: Option<IpAddress>) -> (r: Option<FPingCommand>)
        ensures
            r.is_some() == fping_entry_valid(*c, ip),
            r matches Some(p) ==> fping_converted(*c, ip.unwrap(), p),
    {
        match ip {
            Some(ip) if c.timeout_ms > 0 => Some(FPingCommand { ip, target: c.ip.clone(), timeout_ms: c.timeout_ms }),
            _ => None,
        }
    }
}

impl MtrCommand {
    /// The trace-route request that a wire entry stands for, given its parsed
    /// address; none where the address did not parse.
    pub fn from_wire(c: &MtrCommandResp, ip: Option<IpAddress>) -> (r: Option<MtrCommand>)
        ensures
            r.is_some() == ip.is_some(),
            r matches Some(m) ==> {
                &&& m.version@ == c.version@
                &&& m.ip == ip.unwrap()
                &&& m.times == c.times
                &&& m.hop_limit == c.hop_limit
                &&& m.timeout_ms == c.timeout_ms
            },
    {
        match ip {
            Some(ip) => Some(
                MtrCommand {
                    version: c.version.clone(),
                    ip,
                    times: c.times,
                    hop_limit: c.hop_limit,
                    timeout_ms: c.timeout_ms,
                },
            ),
            None => None,
        }
    }
}

} // verus!
