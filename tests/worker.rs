use build_status_light::indicator::{Pattern, BLUE, GREEN, PURPLE, RED, WHITE};
use build_status_light::remote_status::RemoteStatus;
use build_status_light::worker::{
    pattern_for_status, power_on_sequence, shutdown_sequence, worker_step, Show, WorkerAction,
};

#[test]
fn status_patterns() {
    assert_eq!(pattern_for_status(RemoteStatus::Unknown), Pattern::Glow(PURPLE, 7));
    assert_eq!(pattern_for_status(RemoteStatus::InProgress), Pattern::Glow(GREEN, 3));
    assert_eq!(pattern_for_status(RemoteStatus::Passing), Pattern::Solid(GREEN));
    assert_eq!(pattern_for_status(RemoteStatus::Failing), Pattern::Blink(RED));
}

#[test]
fn power_on_cycles_the_primaries() {
    let seq = power_on_sequence();
    let patterns: Vec<Pattern> = seq.iter().map(|s| s.pattern).collect();
    assert_eq!(
        patterns,
        vec![
            Pattern::Off,
            Pattern::Solid(RED),
            Pattern::Solid(GREEN),
            Pattern::Solid(BLUE),
            Pattern::Off,
            Pattern::Solid(WHITE),
            Pattern::Off,
            Pattern::Glow(PURPLE, 7),
        ]
    );
    assert_eq!(seq[0].hold_ms, 1000);
    assert_eq!(seq[1].hold_ms, 250);
}

#[test]
fn shutdown_glows_white_then_dark() {
    assert_eq!(
        shutdown_sequence(),
        vec![
            Show { pattern: Pattern::Glow(WHITE, 7), hold_ms: 1400 },
            Show { pattern: Pattern::Off, hold_ms: 0 },
        ]
    );
}

#[test]
fn worker_step_sleeps_or_shuts_down() {
    assert_eq!(
        worker_step(RemoteStatus::Passing, true, 10_000),
        (Pattern::Solid(GREEN), WorkerAction::Sleep(10_000))
    );
    assert_eq!(
        worker_step(RemoteStatus::Failing, false, 10_000),
        (Pattern::Blink(RED), WorkerAction::Shutdown)
    );
}
