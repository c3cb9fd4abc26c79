use ping_agent::clock::{elapsed_nanos_capped, UtcInstant};
use ping_agent::detectors::{FpingDetector, Pinger, ProbeRound, TcpPinger, TcpRound};
use ping_agent::icmp::{build_request, ReplyVerdict};
use ping_agent::structures::{
    GrpcPingResult, IpAddress, PingCommand, PingResult, TcpPingCommand, TcpPingResult, FPingCommand,
};

fn at(secs: i64, nanos: u32) -> UtcInstant {
    UtcInstant { secs, nanos }
}

#[test]
fn elapsed_time_is_clamped() {
    assert_eq!(elapsed_nanos_capped(at(10, 0), at(10, 500), 1000), 500);
    assert_eq!(elapsed_nanos_capped(at(10, 999_999_999), at(11, 1), 1000), 2);
    assert_eq!(elapsed_nanos_capped(at(11, 0), at(10, 0), 1000), 0);
    assert_eq!(elapsed_nanos_capped(at(10, 0), at(12, 0), 1000), 1000);
}

#[test]
fn rounds_stamp_the_current_time() {
    let cmd = PingCommand { ip: IpAddress::V4(1), target: "0.0.0.1".to_string(), interval_ms: 1000, timeout_ms: 100 };
    let round = ProbeRound::begin(Pinger::from_ping_command(&cmd));
    assert!(round.send_at.secs > 1_600_000_000);
    assert!(round.send_at.nanos < 1_000_000_000);
    let tcp = TcpPingCommand { target: "a:1".to_string(), interval_ms: 1000, timeout_ms: 100 };
    let mut t = TcpRound::begin(TcpPinger::from_command(&tcp));
    assert!(t.send_at.secs > 1_600_000_000);
    let r = t.on_connected_now().unwrap();
    assert!(!r.is_timeout);
    assert!(r.rtt_nanos.unwrap() <= 100_000_000);
    assert!(t.on_deadline().is_none());
}

#[test]
fn answered_result_has_rtt_within_timeout() {
    let r = PingResult::answered("a".to_string(), at(100, 0), at(100, 20_000_000), 500);
    assert!(!r.is_timeout);
    assert_eq!(r.rtt_nanos, Some(20_000_000));
    let late = PingResult::answered("a".to_string(), at(100, 0), at(101, 0), 500);
    assert_eq!(late.rtt_nanos, Some(500_000_000));
    let early = TcpPingResult::answered("b:1".to_string(), at(100, 5), at(100, 0), 500);
    assert_eq!(early.rtt_nanos, Some(0));
}

#[test]
fn timeout_result_has_no_rtt() {
    let r = TcpPingResult::timed_out("203.0.113.1:9".to_string(), at(5, 0));
    assert!(r.is_timeout);
    assert_eq!(r.rtt_nanos, None);
    assert_eq!(r.to_wire().rtt_micros, 0);
}

#[test]
fn result_round_trips_through_the_wire() {
    let r = PingResult {
        target: "127.0.0.1".to_string(),
        is_timeout: false,
        send_at: at(1_700_000_000, 123_456_789),
        rtt_nanos: Some(4_321_987),
    };
    let w = r.to_wire();
    assert_eq!(w.rtt_micros, 4321);
    let d = PingResult::from_wire(&w);
    assert_eq!(d.target, r.target);
    assert_eq!(d.is_timeout, false);
    assert_eq!(d.rtt_nanos, Some(4_321_000));
    assert_eq!(d.send_at, at(1_700_000_000, 0));
}

#[test]
fn wire_record_round_trips_through_a_result() {
    let w = GrpcPingResult { target: "x".to_string(), is_timeout: true, rtt_micros: 0, send_at: -5 };
    let e = PingResult::from_wire(&w).to_wire();
    assert_eq!(e.target, "x");
    assert!(e.is_timeout);
    assert_eq!(e.rtt_micros, 0);
    assert_eq!(e.send_at, -5);
}

#[test]
fn rtt_saturates_at_u32_micros() {
    let r = PingResult { target: String::new(), is_timeout: false, send_at: at(0, 0), rtt_nanos: Some(u64::MAX) };
    assert_eq!(r.to_wire().rtt_micros, u32::MAX);
}

#[test]
fn register_then_ping_round_on_loopback() {
    let cmd = PingCommand { ip: IpAddress::V4(0x7f00_0001), target: "127.0.0.1".to_string(), interval_ms: 1000, timeout_ms: 500 };
    let mut p = Pinger::from_ping_command(&cmd);
    let req = p.start_round();
    assert_eq!(p.seq, 1);
    let mut round = ProbeRound::new(p, at(50, 0));
    let r = round.on_reply(&req, req.len(), at(50, 300_000)).unwrap();
    assert_eq!(r.target, "127.0.0.1");
    assert!(!r.is_timeout);
    let w = r.to_wire();
    assert!(w.rtt_micros > 0 && w.rtt_micros <= 500_000);
    assert_eq!(round.on_deadline().map(|x| x.is_timeout), None);
}

#[test]
fn stale_reply_leaves_round_open_until_timeout() {
    let cmd = PingCommand { ip: IpAddress::V4(1), target: "0.0.0.1".to_string(), interval_ms: 1000, timeout_ms: 100 };
    let mut p = Pinger::from_ping_command(&cmd);
    p.start_round();
    p.start_round();
    assert_eq!(p.seq, 2);
    let stale = build_request(1, 64);
    assert_eq!(p.judge(&stale, 64), ReplyVerdict::Stale { seq: 1 });
    let mut round = ProbeRound::new(p, at(9, 0));
    assert!(round.on_reply(&stale, 64, at(9, 1)).is_none());
    assert!(!round.finished);
    let r = round.on_deadline().unwrap();
    assert!(r.is_timeout);
    assert!(round.on_deadline().is_none());
    let fresh = build_request(2, 64);
    assert!(round.on_reply(&fresh, 64, at(9, 2)).is_none());
}

#[test]
fn tcp_blackhole_round_times_out() {
    let cmd = TcpPingCommand { target: "203.0.113.1:9".to_string(), interval_ms: 1000, timeout_ms: 200 };
    let p = TcpPinger::from_command(&cmd);
    let mut round = TcpRound::new(p.clone(), at(1, 0));
    let r = round.on_deadline().unwrap();
    assert!(r.is_timeout);
    assert_eq!(r.rtt_nanos, None);
    assert!(round.on_connected(at(1, 1)).is_none());
    let ok = p.answered(at(1, 0), at(1, 50_000_000));
    assert_eq!(ok.rtt_nanos, Some(50_000_000));
}

#[test]
fn fping_burst_uses_sequence_one_and_keeps_order() {
    let cmd = FPingCommand { ip: IpAddress::V4(2), target: "0.0.0.2".to_string(), timeout_ms: 300 };
    let mut p = Pinger::from_fping_command(&cmd);
    let req = p.start_round();
    assert_eq!(req[7], 1);
    let pings = vec![p.timed_out(at(1, 0)), p.answered(at(1, 0), at(1, 1_000))];
    let rep = FpingDetector::assemble("v9".to_string(), &pings);
    assert_eq!(rep.version, "v9");
    assert!(rep.results[0].is_timeout);
    assert_eq!(rep.results[1].rtt_nanos, Some(1_000));
}
