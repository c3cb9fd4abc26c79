use ping_agent::detectors::{PingDetector, TcpPingDetector};
use ping_agent::engine::{smooth_tick_micros, Engine, EngineAction, Phase};

fn v(s: &str) -> String {
    s.to_string()
}

#[test]
fn first_set_starts_one_task_per_command() {
    let mut e = Engine::new();
    let a = e.on_commands(&v("v1"), 2);
    assert_eq!(a, EngineAction::StartTasks { count: 2, tick_micros: 500_000 });
    assert_eq!(e.phase, Phase::Active { running: 2 });
}

#[test]
fn empty_set_on_idle_engine_stays_idle() {
    let mut e = Engine::new();
    assert_eq!(e.on_commands(&v("v0"), 0), EngineAction::Nothing);
    assert_eq!(e.phase, Phase::Idle);
}

#[test]
fn empty_set_stops_all_tasks_and_goes_idle() {
    let mut e = Engine::new();
    e.on_commands(&v("v1"), 3);
    assert_eq!(e.on_commands(&v("v2"), 0), EngineAction::StopAll { count: 3 });
    assert!(e.is_draining());
    assert_eq!(e.on_task_exited(), EngineAction::Nothing);
    assert_eq!(e.on_task_exited(), EngineAction::Nothing);
    assert_eq!(e.on_task_exited(), EngineAction::Nothing);
    assert_eq!(e.phase, Phase::Idle);
    assert!(!e.is_draining());
}

#[test]
fn supersession_stops_old_targets_then_starts_new_ones() {
    let mut e = TcpPingDetector::new().engine;
    e.on_commands(&v("v1"), 2);
    assert_eq!(e.on_commands(&v("v2"), 2), EngineAction::StopAll { count: 2 });
    assert_eq!(e.phase, Phase::Draining { awaiting: 2, next_count: 2 });
    assert_eq!(e.on_task_exited(), EngineAction::Nothing);
    assert_eq!(e.on_task_exited(), EngineAction::StartTasks { count: 2, tick_micros: 500_000 });
    assert_eq!(e.phase, Phase::Active { running: 2 });
    assert_eq!(e.version.as_deref(), Some("v2"));
}

#[test]
fn same_version_twice_keeps_the_tasks() {
    let mut e = PingDetector::new().engine;
    e.on_commands(&v("v1"), 4);
    assert_eq!(e.on_commands(&v("v1"), 4), EngineAction::Nothing);
    assert_eq!(e.phase, Phase::Active { running: 4 });
}

#[test]
fn same_empty_set_twice_stays_idle() {
    let mut e = Engine::new();
    e.on_commands(&v("v1"), 0);
    assert_eq!(e.on_commands(&v("v1"), 0), EngineAction::Nothing);
    assert_eq!(e.phase, Phase::Idle);
}

#[test]
fn failed_task_is_not_restarted() {
    let mut e = Engine::new();
    e.on_commands(&v("v1"), 2);
    assert_eq!(e.on_task_exited(), EngineAction::Nothing);
    assert_eq!(e.phase, Phase::Active { running: 1 });
    assert_eq!(e.on_task_exited(), EngineAction::Nothing);
    assert_eq!(e.phase, Phase::Idle);
}

#[test]
fn smooth_start_tick_for_one_task_is_one_second() {
    assert_eq!(smooth_tick_micros(1), 1_000_000);
}

#[test]
fn smooth_start_tick_for_ten_thousand_tasks() {
    assert_eq!(smooth_tick_micros(10_000), 100);
    assert!(10_000 * smooth_tick_micros(10_000) <= 1_000_000);
}

#[test]
fn smooth_start_tick_never_zero() {
    assert_eq!(smooth_tick_micros(3), 333_333);
    assert_eq!(smooth_tick_micros(2_000_000), 1);
    assert_eq!(smooth_tick_micros(0), 1);
}
