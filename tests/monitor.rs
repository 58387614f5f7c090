use mongors::description::{ServerDescription, ServerType};
use mongors::monitor::{CheckResult, Monitor};

fn reply(rtt: u64) -> CheckResult {
    CheckResult::Replied { server_type: ServerType::RSSecondary, round_trip_ms: rtt, max_wire_version: 8, election_id: None }
}

#[test]
fn round_trip_is_smoothed() {
    let mut m = Monitor::new(7, 10_000, 500);
    let (first, delay) = m.on_check(reply(50));
    assert_eq!(first, ServerDescription::reported(7, ServerType::RSSecondary, 50, 8, None));
    assert_eq!(delay, 10_000);
    let (second, _) = m.on_check(reply(100));
    assert_eq!(second.round_trip_ms, 60);
    assert_eq!(m.round_trip_ms, Some(60));
}

#[test]
fn failure_is_reported_and_rechecked_once_soon() {
    let mut m = Monitor::new(7, 10_000, 500);
    m.on_check(reply(50));
    let (failed, delay) = m.on_check(CheckResult::Failed);
    assert_eq!(failed, ServerDescription::failed(7));
    assert_eq!(failed.server_type, ServerType::Unknown);
    assert_eq!(delay, 500);
    let (_, delay) = m.on_check(CheckResult::Failed);
    assert_eq!(delay, 10_000);
    let (_, delay) = m.on_check(reply(40));
    assert_eq!(delay, 10_000);
    let (_, delay) = m.on_check(CheckResult::Failed);
    assert_eq!(delay, 500);
}
