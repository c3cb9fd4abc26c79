use ping_agent::commander::{
    CommandType, Commander, ControlLink, LinkAction, LinkEvent, LinkState, SuperCommander, UpdateNotification,
};
use ping_agent::conf::{check_endpoints, Agent, Collector, Conf, ConfError, Controller};
use ping_agent::reporter::Reporter;
use ping_agent::structures::{GrpcFpingCommand, GrpcPingCommand, GrpcTcpPingCommand, IpAddress};

fn conf(controller: &str, collector: &str) -> Conf {
    Conf {
        agent: Agent { id: 1 },
        controller: Controller { url: controller.to_string() },
        collector: Collector { url: collector.to_string() },
    }
}

#[test]
fn valid_configuration_passes() {
    assert_eq!(conf("http://127.0.0.1:8080", "http://collector:9090").check(), Ok(()));
}

#[test]
fn malformed_controller_url_is_rejected() {
    assert_eq!(conf("http://bad url", "http://collector:9090").check(), Err(ConfError::ControllerUrl));
}

#[test]
fn malformed_collector_url_is_rejected() {
    assert_eq!(conf("http://127.0.0.1:8080", "http://[::1").check(), Err(ConfError::CollectorUrl));
}

#[test]
fn endpoint_verdicts() {
    assert_eq!(check_endpoints(true, true), Ok(()));
    assert_eq!(check_endpoints(false, false), Err(ConfError::ControllerUrl));
    assert_eq!(check_endpoints(true, false), Err(ConfError::CollectorUrl));
}

#[test]
fn constructors_check_their_urls() {
    assert!(Reporter::new("http://a b", 1).is_err());
    assert!(SuperCommander::new("http://a b", 1).is_err());
    let s = SuperCommander::new("http://controller:50051", 42).unwrap();
    let c = s.build_commander();
    assert_eq!(c.agent_id, 42);
}

#[test]
fn notification_for_own_kind_fetches_its_version() {
    let c = Commander { agent_id: 5 };
    let n = UpdateNotification { command_type: CommandType::Ping.code(), version: "v1".to_string() };
    let req = c.on_notification(&n, CommandType::Ping).unwrap();
    assert_eq!(req.agent_id, 5);
    assert_eq!(req.version, "v1");
    let other = UpdateNotification { command_type: CommandType::Fping.code(), version: "v2".to_string() };
    assert!(c.on_notification(&other, CommandType::Ping).is_none());
}

#[test]
fn command_type_codes() {
    assert_eq!(CommandType::from_code(0), Some(CommandType::Ping));
    assert_eq!(CommandType::from_code(1), Some(CommandType::TcpPing));
    assert_eq!(CommandType::from_code(2), Some(CommandType::Fping));
    assert_eq!(CommandType::from_code(3), None);
}

#[test]
fn unparseable_addresses_are_dropped_and_rest_kept_in_order() {
    let items = vec![
        GrpcPingCommand { ip: "127.0.0.1".to_string(), interval_ms: 1000, timeout_ms: 500 },
        GrpcPingCommand { ip: "not-an-ip".to_string(), interval_ms: 1000, timeout_ms: 500 },
        GrpcPingCommand { ip: "10.0.0.1".to_string(), interval_ms: 0, timeout_ms: 500 },
        GrpcPingCommand { ip: "::1".to_string(), interval_ms: 2000, timeout_ms: 300 },
    ];
    let ips = vec![Some(IpAddress::V4(0x7f00_0001)), None, Some(IpAddress::V4(0x0a00_0001)), Some(IpAddress::V6(1))];
    let cmds = Commander::build_ping_commands(&items, &ips);
    assert_eq!(cmds.len(), 2);
    assert_eq!(cmds[0].target, "127.0.0.1");
    assert_eq!(cmds[0].timeout_ms, 500);
    assert_eq!(cmds[1].ip, IpAddress::V6(1));
    assert_eq!(cmds[1].interval_ms, 2000);
}

#[test]
fn tcp_and_fping_lists_are_translated() {
    let tcp = vec![
        GrpcTcpPingCommand { target: "a:80".to_string(), interval_ms: 1000, timeout_ms: 200 },
        GrpcTcpPingCommand { target: "b:80".to_string(), interval_ms: 1000, timeout_ms: 0 },
    ];
    let t = Commander::build_tcp_ping_commands(&tcp);
    assert_eq!(t.len(), 1);
    assert_eq!(t[0].target, "a:80");
    let f = vec![
        GrpcFpingCommand { ip: "x".to_string(), timeout_ms: 100 },
        GrpcFpingCommand { ip: "1.2.3.4".to_string(), timeout_ms: 100 },
    ];
    let fc = Commander::build_fping_commands(&f, &vec![None, Some(IpAddress::V4(0x0102_0304))]);
    assert_eq!(fc.len(), 1);
    assert_eq!(fc[0].target, "1.2.3.4");
}

#[test]
fn lost_stream_waits_then_registers_again() {
    let mut link = ControlLink::new();
    assert_eq!(link.on_event(LinkEvent::Registered), LinkAction::Listen);
    assert_eq!(link.on_event(LinkEvent::Notified), LinkAction::Forward);
    match link.on_event(LinkEvent::StreamLost) {
        LinkAction::Wait { secs } => assert!((5..=15).contains(&secs)),
        other => panic!("expected a wait, got {:?}", other),
    }
    assert_eq!(link.state, LinkState::Waiting);
    assert_eq!(link.on_event(LinkEvent::Notified), LinkAction::Ignore);
    assert_eq!(link.on_event(LinkEvent::WaitOver), LinkAction::Register);
    assert_eq!(link.state, LinkState::Registering);
}

#[test]
fn failed_registration_waits_before_retrying() {
    let mut link = ControlLink::new();
    for _ in 0..20 {
        match link.on_event(LinkEvent::RegisterFailed) {
            LinkAction::Wait { secs } => assert!((5..=15).contains(&secs)),
            other => panic!("expected a wait, got {:?}", other),
        }
        assert_eq!(link.on_event(LinkEvent::WaitOver), LinkAction::Register);
    }
    assert_eq!(link.state, LinkState::Registering);
}
