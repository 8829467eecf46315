use vstd::prelude::*;

use crate::indicator::{
    Pattern, BLUE, GLOW_CYCLE_STEPS, GLOW_STEP_MS, GREEN, PURPLE, RED, WHITE,
};
use crate::remote_status::RemoteStatus;

verus! {

/// How long a worker loop waits between polls.
pub const SLEEP_DURATION_MS: u64 = 10000;

/// One whole cycle of the fast glow that shows builds in progress.
pub const FAST_GLOW_PERIOD_MS: u64 = 700;

/// How long the shutdown glow is shown: about one whole cycle.
pub const SHUTDOWN_GLOW_MS: u64 = 1400;

/// A pattern shown for a while, as one step of a fixed sequence.
#[derive(Clone, Copy, PartialEq, Eq, Debug)]
pub struct Show {
    pub pattern: Pattern,
    pub hold_ms: u64,
}

/// What a worker loop does after showing the status.
#[derive(Clone, Copy, PartialEq, Eq, Structural, Debug)]
pub enum WorkerAction {
    /// Wait this many milliseconds, then poll again.
    Sleep(u64),
    /// Play the shutdown sequence and return.
    Shutdown,
}

/// The pattern that shows a status: Unknown glows purple, builds in progress
/// glow green fast, passing is solid green, failing blinks red.
pub open spec fn status_pattern(s: RemoteStatus) -> Pattern {
    match s {
        RemoteStatus::Unknown => Pattern::Glow(PURPLE, GLOW_STEP_MS),
        RemoteStatus::InProgress => Pattern::Glow(GREEN, FAST_GLOW_PERIOD_MS / GLOW_CYCLE_STEPS),
        RemoteStatus::Passing => Pattern::Solid(GREEN),
        RemoteStatus::Failing => Pattern::Blink(RED),
    }
}

pub fn pattern_for_status(s: RemoteStatus) -> (p: Pattern)
    ensures
        p == status_pattern(s),
{
    match s {
        RemoteStatus::Unknown => Pattern::Glow(PURPLE, GLOW_STEP_MS),
        RemoteStatus::InProgress => Pattern::Glow(GREEN, FAST_GLOW_PERIOD_MS / GLOW_CYCLE_STEPS),
        RemoteStatus::Passing => Pattern::Solid(GREEN),
        RemoteStatus::Failing => Pattern::Blink(RED),
    }
}

/// The self-test a light plays when its loop starts: dark for a second, red,
/// green and blue in turn, dark, white, dark, then a purple glow.
pub open spec fn power_on_spec() -> Seq<Show> {
    seq![
        Show { pattern: Pattern::Off, hold_ms: 1000 },
        Show { pattern: Pattern::Solid(RED), hold_ms: 250 },
        Show { pattern: Pattern::Solid(GREEN), hold_ms: 250 },
        Show { pattern: Pattern::Solid(BLUE), hold_ms: 250 },
        Show { pattern: Pattern::Off, hold_ms: 250 },
        Show { pattern: Pattern::Solid(WHITE), hold_ms: 250 },
        Show { pattern: Pattern::Off, hold_ms: 0 },
        Show { pattern: Pattern::Glow(PURPLE, GLOW_STEP_MS), hold_ms: 0 },
    ]
}

/// What a light plays when its loop shuts down: a white glow, then dark.
pub open spec fn shutdown_spec() -> Seq<Show> {
    seq![
        Show { pattern: Pattern::Glow(WHITE, GLOW_STEP_MS), hold_ms: SHUTDOWN_GLOW_MS },
        Show { pattern: Pattern::Off, hold_ms: 0 },
    ]
}

pub fn power_on_sequence() -> (r: Vec<Show>)
    ensures
        r@ == power_on_spec(),
{
    let mut r: Vec<Show> = Vec::new();
    r.push(Show { pattern: Pattern::Off, hold_ms: 1000 });
    r.push(Show { pattern: Pattern::Solid(RED), hold_ms: 250 });
    r.push(Show { pattern: Pattern::Solid(GREEN), hold_ms: 250 });
    r.push(Show { pattern: Pattern::Solid(BLUE), hold_ms: 250 });
    r.push(Show { pattern: Pattern::Off, hold_ms: 250 });
    r.push(Show { pattern: Pattern::Solid(WHITE), hold_ms: 250 });
    r.push(Show { pattern: Pattern::Off, hold_ms: 0 });
    r.push(Show { pattern: Pattern::Glow(PURPLE, GLOW_STEP_MS), hold_ms: 0 });
    assert(r@ =~= power_on_spec());
    r
}

pub fn shutdown_sequence() -> (r: Vec<Show>)
    ensures
        r@ == shutdown_spec(),
{
    let mut r: Vec<Show> = Vec::new();
    r.push(Show { pattern: Pattern::Glow(WHITE, GLOW_STEP_MS), hold_ms: SHUTDOWN_GLOW_MS });
    r.push(Show { pattern: Pattern::Off, hold_ms: 0 });
    assert(r@ =~= shutdown_spec());
    r
}

/// One iteration of a worker loop, after its poll gave `status`: the pattern
/// to show, then a wait of `interval_ms` while the running flag is set, or the
/// shutdown once it is cleared.
pub fn worker_step(status: RemoteStatus, running: bool, interval_ms: u64) -> (r: (
    Pattern,
    WorkerAction,
))
    ensures
        r.0 == status_pattern(status),
        r.1 == if running {
            WorkerAction::Sleep(interval_ms)
        } else {
            WorkerAction::Shutdown
        },
{
    let pattern = pattern_for_status(status);
    if running {
        (pattern, WorkerAction::Sleep(interval_ms))
    } else {
        (pattern, WorkerAction::Shutdown)
    }
}

} // verus!
