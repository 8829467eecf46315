use vstd::prelude::*;

verus! {

/// The request quota of a rate-limited service, as its last answer reported it.
#[derive(Clone, Copy, PartialEq, Eq, Structural, Debug)]
pub struct RateWindow {
    /// Requests left in the current window.
    pub remaining: u64,
    /// When the window starts anew, in milliseconds since the epoch.
    pub reset_at_ms: u64,
}

/// The shortest window that the quota is spread over, in milliseconds.
pub const MIN_WINDOW_MS: u64 = 1000;

/// Milliseconds from `now_ms` until the window resets; zero once it has.
pub open spec fn reset_in(w: RateWindow, now_ms: nat) -> nat {
    if w.reset_at_ms > now_ms {
        (w.reset_at_ms - now_ms) as nat
    } else {
        0
    }
}

/// The delay between polls that spreads `remaining` requests over the time left
/// until the reset (at least one second), rounded up to whole milliseconds, and
/// never below `floor_ms`. With no request left the delay is the whole window.
pub open spec fn interval_for(remaining: nat, reset_in_ms: nat, floor_ms: nat) -> nat {
    let window = if reset_in_ms > MIN_WINDOW_MS {
        reset_in_ms
    } else {
        MIN_WINDOW_MS as nat
    };
    let spaced = if remaining == 0 {
        window
    } else {
        ((window - 1) / (remaining as int) + 1) as nat
    };
    if spaced > floor_ms {
        spaced
    } else {
        floor_ms
    }
}

/// The delay before the next poll: the floor where no quota was reported.
pub open spec fn next_interval_spec(window: Option<RateWindow>, now_ms: nat, floor_ms: nat) -> nat {
    match window {
        None => floor_ms,
        Some(w) => interval_for(w.remaining as nat, reset_in(w, now_ms), floor_ms),
    }
}

/// The delay before the next poll, in milliseconds.
pub fn next_poll_interval(window: Option<RateWindow>, now_ms: u64, floor_ms: u64) -> (r: u64)
    ensures
        r == next_interval_spec(window, now_ms as nat, floor_ms as nat),
{
    match window {
        None => floor_ms,
        Some(w) => {
            let reset_in_ms: u64 = if w.reset_at_ms > now_ms {
                w.reset_at_ms - now_ms
            } else {
                0
            };
            let span: u64 = if reset_in_ms > MIN_WINDOW_MS {
                reset_in_ms
            } else {
                MIN_WINDOW_MS
            };
            let spaced: u64 = if w.remaining == 0 {
                span
            } else {
                assert((span - 1) / (w.remaining as int) <= span - 1) by {
                    vstd::arithmetic::div_mod::lemma_div_is_ordered_by_denominator(
                        (span - 1) as int,
                        1,
                        w.remaining as int,
                    );
                }
                (span - 1) / w.remaining + 1
            };
            if spaced > floor_ms {
                spaced
            } else {
                floor_ms
            }
        },
    }
}

pub open spec fn is_digit(c: char) -> bool {
    '0' <= c && c <= '9'
}

/// A non-empty run of decimal digits.
pub open spec fn is_decimal(s: Seq<char>) -> bool {
    s.len() > 0 && forall|k: int| 0 <= k < s.len() ==> is_digit(#[trigger] s[k])
}

/// The number that a run of decimal digits writes.
pub open spec fn decimal_value(s: Seq<char>) -> nat
    decreases s.len(),
{
    if s.len() == 0 {
        0
    } else {
        decimal_value(s.drop_last()) * 10 + ((s.last() as u32) - ('0' as u32)) as nat
    }
}

/// The number a header value writes, where it is one that fits in 64 bits.
pub open spec fn header_number(s: Seq<char>) -> Option<u64> {
    if is_decimal(s) && decimal_value(s) <= u64::MAX {
        Some(decimal_value(s) as u64)
    } else {
        None
    }
}

/// A digit string is worth at least as much as any of its prefixes.
proof fn lemma_prefix_value_bounded(s: Seq<char>, j: int)
    requires
        0 <= j <= s.len(),
        forall|k: int| 0 <= k < s.len() ==> is_digit(#[trigger] s[k]),
    ensures
        decimal_value(s.take(j)) <= decimal_value(s),
    decreases s.len(),
{
    if j < s.len() {
        let rest = s.drop_last();
        assert(rest.take(j) =~= s.take(j));
        assert forall|k: int| 0 <= k < rest.len() implies is_digit(#[trigger] rest[k]) by {
            assert(rest[k] == s[k]);
        }
        lemma_prefix_value_bounded(rest, j);
    } else {
        assert(s.take(j) =~= s);
    }
}

/// Reads a header value that holds a whole number of 64 bits.
pub fn parse_decimal(s: &str) -> (r: Option<u64>)
    ensures
        r == header_number(s@),
{
    let n = s.unicode_len();
    if n == 0 {
        return None;
    }
    let mut value: u64 = 0;
    let mut i: usize = 0;
    while i < n
        invariant
            i <= n,
            n == s@.len(),
            forall|k: int| 0 <= k < i ==> is_digit(#[trigger] s@[k]),
            value == decimal_value(s@.take(i as int)),
        decreases n - i,
    {
        let c = s.get_char(i);
        assert(s@.take(i + 1).drop_last() =~= s@.take(i as int));
        if c < '0' || c > '9' {
            return None;
        }
        let digit: u64 = ((c as u32) - ('0' as u32)) as u64;
        let next = match value.checked_mul(10) {
            None => None,
            Some(m) => m.checked_add(digit),
        };
        match next {
            None => {
                proof {
                    if is_decimal(s@) {
                        lemma_prefix_value_bounded(s@, i + 1);
                    }
                }
                return None;
            },
            Some(v) => {
                value = v;
            },
        }
        i = i + 1;
    }
    assert(s@.take(n as int) =~= s@);
    Some(value)
}

impl RateWindow {
    /// The window that the quota headers of an answer describe: requests left,
    /// and the reset time in whole seconds since the epoch.
    pub open spec fn from_headers_spec(remaining: Seq<char>, reset_epoch_s: Seq<char>) -> Option<
        RateWindow,
    > {
        match (header_number(remaining), header_number(reset_epoch_s)) {
            (Some(left), Some(secs)) => if secs * 1000 <= u64::MAX {
                Some(RateWindow { remaining: left, reset_at_ms: (secs * 1000) as u64 })
            } else {
                None
            },
            _ => None,
        }
    }

    pub fn from_headers(remaining: &str, reset_epoch_s: &str) -> (r: Option<RateWindow>)
        ensures
            r == Self::from_headers_spec(remaining@, reset_epoch_s@),
    {
        let left = parse_decimal(remaining);
        let secs = parse_decimal(reset_epoch_s);
        match (left, secs) {
            (Some(left), Some(secs)) => match secs.checked_mul(1000) {
                Some(ms) => Some(RateWindow { remaining: left, reset_at_ms: ms }),
                None => None,
            },
            _ => None,
        }
    }
}

/// Polling is never faster than the floor.
pub proof fn lemma_interval_at_least_floor(remaining: nat, reset_in_ms: nat, floor_ms: nat)
    ensures
        interval_for(remaining, reset_in_ms, floor_ms) >= floor_ms,
{
}

/// More requests left never lengthens the delay.
pub proof fn lemma_interval_decreases_with_quota(
    r1: nat,
    r2: nat,
    reset_in_ms: nat,
    floor_ms: nat,
)
    requires
        r1 <= r2,
    ensures
        interval_for(r2, reset_in_ms, floor_ms) <= interval_for(r1, reset_in_ms, floor_ms),
{
    let window: int = if reset_in_ms > MIN_WINDOW_MS {
        reset_in_ms as int
    } else {
        MIN_WINDOW_MS as int
    };
    if r1 == 0 {
        if r2 > 0 {
            vstd::arithmetic::div_mod::lemma_div_is_ordered_by_denominator(window - 1, 1, r2 as int);
        }
    } else {
        vstd::arithmetic::div_mod::lemma_div_is_ordered_by_denominator(
            window - 1,
            r1 as int,
            r2 as int,
        );
    }
}

/// A later reset never shortens the delay.
pub proof fn lemma_interval_increases_with_reset(
    remaining: nat,
    t1: nat,
    t2: nat,
    floor_ms: nat,
)
    requires
        t1 <= t2,
    ensures
        interval_for(remaining, t1, floor_ms) <= interval_for(remaining, t2, floor_ms),
{
    let w1: int = if t1 > MIN_WINDOW_MS {
        t1 as int
    } else {
        MIN_WINDOW_MS as int
    };
    let w2: int = if t2 > MIN_WINDOW_MS {
        t2 as int
    } else {
        MIN_WINDOW_MS as int
    };
    if remaining > 0 {
        vstd::arithmetic::div_mod::lemma_div_is_ordered(w1 - 1, w2 - 1, remaining as int);
    }
}

} // verus!
