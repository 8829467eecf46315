use vstd::prelude::*;

verus! {

/// Intensities of the red, green and blue channels, 0 to 100 on the hardware.
pub type Rgb = (i32, i32, i32);

pub const RED: Rgb = (100, 0, 0);

pub const GREEN: Rgb = (0, 100, 0);

pub const BLUE: Rgb = (0, 0, 100);

pub const TEAL: Rgb = (0, 100, 100);

pub const YELLOW: Rgb = (100, 100, 0);

pub const WHITE: Rgb = (100, 100, 100);

pub const PURPLE: Rgb = (100, 0, 100);

pub const DARK: Rgb = (0, 0, 0);

/// How long each half of a blink lasts.
pub const BLINK_PHASE_MS: u64 = 750;

/// How long each of a glow's steps lasts at the normal pace.
pub const GLOW_STEP_MS: u64 = 7;

/// Steps in one glow cycle: 101 levels up (0 to 100), then 101 down.
pub const GLOW_CYCLE_STEPS: u64 = 202;

/// What a light is told to show.
#[derive(Clone, Copy, PartialEq, Eq, Debug)]
pub enum Pattern {
    /// All channels dark.
    Off,
    /// The color, held.
    Solid(Rgb),
    /// The color and dark in turn, `BLINK_PHASE_MS` each.
    Blink(Rgb),
    /// The color ramped up from dark and back, one level per step of the given
    /// milliseconds.
    Glow(Rgb, u64),
}

/// One write to the three channels, and how long it stands before the next.
#[derive(Clone, Copy, PartialEq, Eq, Structural, Debug)]
pub struct Frame {
    pub red: i32,
    pub green: i32,
    pub blue: i32,
    pub hold_ms: u64,
}

/// `level` percent of the intensity `c`, cut toward zero.
pub open spec fn scale(c: int, level: int) -> int {
    if c >= 0 {
        c * level / 100
    } else {
        -((-c) * level / 100)
    }
}

/// The level, 0 to 100, of a glow at one of its steps.
pub open spec fn glow_level(step: nat) -> nat {
    let k = step % (GLOW_CYCLE_STEPS as nat);
    if k <= 100 {
        k
    } else {
        (201 - k) as nat
    }
}

pub open spec fn frame_of(c: Rgb, hold_ms: u64) -> Frame {
    Frame { red: c.0, green: c.1, blue: c.2, hold_ms }
}

/// The write that a pattern makes at one of its steps; `None` once it has no
/// more to make (a held pattern makes one write, an animation never stops).
pub open spec fn pattern_frame(p: Pattern, step: nat) -> Option<Frame> {
    match p {
        Pattern::Off => if step == 0 {
            Some(frame_of(DARK, 0))
        } else {
            None
        },
        Pattern::Solid(c) => if step == 0 {
            Some(frame_of(c, 0))
        } else {
            None
        },
        Pattern::Blink(c) => if step % 2 == 0 {
            Some(frame_of(c, BLINK_PHASE_MS))
        } else {
            Some(frame_of(DARK, BLINK_PHASE_MS))
        },
        Pattern::Glow(c, step_ms) => {
            let level = glow_level(step) as int;
            Some(
                Frame {
                    red: scale(c.0 as int, level) as i32,
                    green: scale(c.1 as int, level) as i32,
                    blue: scale(c.2 as int, level) as i32,
                    hold_ms: step_ms,
                },
            )
        },
    }
}

/// `level` percent of one channel's intensity.
pub fn scale_channel(c: i32, level: u64) -> (r: i32)
    requires
        level <= 100,
    ensures
        r == scale(c as int, level as int),
{
    if c >= 0 {
        let m: u64 = c as u64;
        assert(m * level <= m * 100) by (nonlinear_arith)
            requires
                level <= 100,
        ;
        assert((m * level) / 100 <= m) by (nonlinear_arith)
            requires
                m * level <= m * 100,
        ;
        ((m * level) / 100) as i32
    } else {
        let m: u64 = (-(c as i64)) as u64;
        assert(m * level <= m * 100) by (nonlinear_arith)
            requires
                level <= 100,
        ;
        assert((m * level) / 100 <= m) by (nonlinear_arith)
            requires
                m * level <= m * 100,
        ;
        let q: u64 = (m * level) / 100;
        (-(q as i64)) as i32
    }
}

/// The write that `p` makes at `step`.
pub fn pattern_frame_at(p: &Pattern, step: u64) -> (r: Option<Frame>)
    ensures
        r == pattern_frame(*p, step as nat),
{
    match p {
        Pattern::Off => if step == 0 {
            Some(Frame { red: 0, green: 0, blue: 0, hold_ms: 0 })
        } else {
            None
        },
        Pattern::Solid(c) => if step == 0 {
            Some(Frame { red: c.0, green: c.1, blue: c.2, hold_ms: 0 })
        } else {
            None
        },
        Pattern::Blink(c) => if step % 2 == 0 {
            Some(Frame { red: c.0, green: c.1, blue: c.2, hold_ms: BLINK_PHASE_MS })
        } else {
            Some(Frame { red: 0, green: 0, blue: 0, hold_ms: BLINK_PHASE_MS })
        },
        Pattern::Glow(c, step_ms) => {
            let k = step % GLOW_CYCLE_STEPS;
            let level: u64 = if k <= 100 {
                k
            } else {
                201 - k
            };
            Some(
                Frame {
                    red: scale_channel(c.0, level),
                    green: scale_channel(c.1, level),
                    blue: scale_channel(c.2, level),
                    hold_ms: *step_ms,
                },
            )
        },
    }
}

/// The state of one light as plain values: its channels, the generation of the
/// pattern it was last told to show, that pattern, and the generation of every
/// write it let through, in order.
pub struct LightState {
    pub red_pin: u16,
    pub green_pin: u16,
    pub blue_pin: u16,
    pub generation: u64,
    pub pattern: Pattern,
    pub writes: Seq<u64>,
}

impl LightState {
    /// Writes went through in generation order, none from a generation that
    /// had not started yet.
    pub open spec fn wf(self) -> bool {
        &&& forall|i: int, j: int|
            0 <= i <= j < self.writes.len() ==> #[trigger] self.writes[i] <= #[trigger] self.writes[j]
        &&& forall|i: int| 0 <= i < self.writes.len() ==> #[trigger] self.writes[i] <= self.generation
    }
}

/// Starting a pattern: it gets the next generation, which every earlier one
/// is now behind.
pub open spec fn start_spec(s: LightState, p: Pattern) -> (LightState, u64) {
    let g = (s.generation + 1) as u64;
    (LightState { generation: g, pattern: p, ..s }, g)
}

/// A write asked for by the pattern of generation `g` at `step`: it goes
/// through only while `g` is the current generation and the pattern has a write
/// for that step.
pub open spec fn write_spec(s: LightState, g: u64, step: nat) -> (LightState, Option<Frame>) {
    if g == s.generation && pattern_frame(s.pattern, step) is Some {
        (LightState { writes: s.writes.push(g), ..s }, pattern_frame(s.pattern, step))
    } else {
        (s, None)
    }
}

/// What can happen to a light: a pattern starts, or the pattern of a
/// generation asks for its write at a step.
pub enum LightEvent {
    Start(Pattern),
    Write(u64, u64),
}

/// The state after the events, in order.
pub open spec fn run(s: LightState, events: Seq<LightEvent>) -> LightState
    decreases events.len(),
{
    if events.len() == 0 {
        s
    } else {
        let t = run(s, events.drop_last());
        match events.last() {
            LightEvent::Start(p) => start_spec(t, p).0,
            LightEvent::Write(g, step) => write_spec(t, g, step as nat).0,
        }
    }
}

/// What a run of events does to the write log: it only grows, every write
/// added is of a generation not before the first state's, and the log stays in
/// generation order.
proof fn lemma_run(s: LightState, events: Seq<LightEvent>)
    requires
        s.wf(),
        s.generation + events.len() < u64::MAX,
    ensures
        run(s, events).wf(),
        s.generation <= run(s, events).generation <= s.generation + events.len(),
        s.writes.len() <= run(s, events).writes.len(),
        run(s, events).writes.subrange(0, s.writes.len() as int) == s.writes,
        forall|i: int|
            s.writes.len() <= i < run(s, events).writes.len() ==> s.generation
                <= #[trigger] run(s, events).writes[i],
    decreases events.len(),
{
    if events.len() > 0 {
        let rest = events.drop_last();
        lemma_run(s, rest);
        let t = run(s, rest);
        let u = run(s, events);
        match events.last() {
            LightEvent::Start(p) => {
                assert forall|i: int| 0 <= i < u.writes.len() implies #[trigger] u.writes[i]
                    <= u.generation by {
                    assert(t.writes[i] <= t.generation);
                }
            },
            LightEvent::Write(g, step) => {
                if g == t.generation && pattern_frame(t.pattern, step as nat) is Some {
                    assert forall|i: int, j: int| 0 <= i <= j < u.writes.len() implies #[trigger] u.writes[i]
                        <= #[trigger] u.writes[j] by {
                        if i < t.writes.len() {
                            assert(t.writes[i] <= t.generation);
                        }
                        if j < t.writes.len() {
                            assert(t.writes[i] <= t.writes[j]);
                        }
                    }
                    assert forall|i: int| 0 <= i < u.writes.len() implies #[trigger] u.writes[i]
                        <= u.generation by {
                        if i < t.writes.len() {
                            assert(t.writes[i] <= t.generation);
                        }
                    }
                    assert(u.writes.subrange(0, s.writes.len() as int) =~= t.writes.subrange(
                        0,
                        s.writes.len() as int,
                    ));
                    assert forall|i: int|
                        s.writes.len() <= i < u.writes.len() implies s.generation
                        <= #[trigger] u.writes[i] by {
                        if i < t.writes.len() {
                            assert(s.generation <= t.writes[i]);
                        }
                    }
                }
            },
        }
    }
}

/// Whatever happens to a light, writes go through in generation order: once a
/// write of one pattern has been made, no write of an earlier pattern follows.
pub proof fn lemma_writes_stay_in_generation_order(s: LightState, events: Seq<LightEvent>)
    requires
        s.wf(),
        s.generation + events.len() < u64::MAX,
    ensures
        forall|i: int, j: int|
            0 <= i <= j < run(s, events).writes.len() ==> #[trigger] run(s, events).writes[i]
                <= #[trigger] run(s, events).writes[j],
{
    lemma_run(s, events);
}

/// Once pattern B has started right after pattern A, nothing that follows lets
/// a write of A through: every write made from then on is of B's generation or
/// a later one, and A's generation is behind it.
pub proof fn lemma_superseded_pattern_never_writes(
    s: LightState,
    a: Pattern,
    b: Pattern,
    events: Seq<LightEvent>,
)
    requires
        s.wf(),
        s.generation + 2 + events.len() < u64::MAX,
    ensures
        ({
            let (after_a, ga) = start_spec(s, a);
            let (after_b, gb) = start_spec(after_a, b);
            let t = run(after_b, events);
            &&& ga < gb
            &&& t.writes.subrange(0, s.writes.len() as int) == s.writes
            &&& forall|i: int|
                s.writes.len() <= i < t.writes.len() ==> gb <= #[trigger] t.writes[i]
            &&& forall|step: nat| #[trigger] write_spec(t, ga, step) == (t, None::<Frame>)
        }),
{
    let (after_a, ga) = start_spec(s, a);
    let (after_b, gb) = start_spec(after_a, b);
    assert forall|i: int| 0 <= i < after_b.writes.len() implies #[trigger] after_b.writes[i]
        <= after_b.generation by {
        assert(s.writes[i] <= s.generation);
    }
    lemma_run(after_b, events);
}

/// One light's channels and the hand-over between the patterns it shows. Each
/// pattern started gets a new generation; the animation that runs it asks for
/// each of its writes with that generation, and gets none once a later pattern
/// has started. With the light behind one lock, no write of a superseded
/// pattern can follow the first write of its successor.
pub struct RgbLedLight {
    red_pin: u16,
    green_pin: u16,
    blue_pin: u16,
    generation: u64,
    pattern: Pattern,
    writes: Ghost<Seq<u64>>,
}

impl View for RgbLedLight {
    type V = LightState;

    closed spec fn view(&self) -> LightState {
        LightState {
            red_pin: self.red_pin,
            green_pin: self.green_pin,
            blue_pin: self.blue_pin,
            generation: self.generation,
            pattern: self.pattern,
            writes: self.writes@,
        }
    }
}

impl RgbLedLight {
    #[verifier::type_invariant]
    closed spec fn inv(self) -> bool {
        self@.wf()
    }

    /// A dark light on the three channels, with no pattern started yet.
    pub fn new(red: u16, green: u16, blue: u16) -> (l: RgbLedLight)
        ensures
            l@ == (LightState {
                red_pin: red,
                green_pin: green,
                blue_pin: blue,
                generation: 0,
                pattern: Pattern::Off,
                writes: Seq::empty(),
            }),
            l@.wf(),
    {
        RgbLedLight {
            red_pin: red,
            green_pin: green,
            blue_pin: blue,
            generation: 0,
            pattern: Pattern::Off,
            writes: Ghost(Seq::empty()),
        }
    }

    pub fn red_pin(&self) -> (r: u16)
        ensures
            r == self@.red_pin,
    {
        self.red_pin
    }

    pub fn green_pin(&self) -> (r: u16)
        ensures
            r == self@.green_pin,
    {
        self.green_pin
    }

    pub fn blue_pin(&self) -> (r: u16)
        ensures
            r == self@.blue_pin,
    {
        self.blue_pin
    }

    pub fn generation(&self) -> (r: u64)
        ensures
            r == self@.generation,
    {
        self.generation
    }

    /// Whether the current pattern is an animation.
    pub fn is_blinking(&self) -> (r: bool)
        ensures
            r == (self@.pattern is Blink || self@.pattern is Glow),
    {
        match self.pattern {
            Pattern::Blink(_) | Pattern::Glow(_, _) => true,
            _ => false,
        }
    }

    /// Starts `p`, cancelling whatever ran before, and returns the generation
    /// that `p`'s writes are to be asked for with.
    pub fn start_pattern(&mut self, p: Pattern) -> (g: u64)
        requires
            old(self)@.generation < u64::MAX,
        ensures
            (final(self)@, g) == start_spec(old(self)@, p),
            final(self)@.wf(),
    {
        proof {
            use_type_invariant(&*self);
        }
        let g = self.generation + 1;
        assert forall|i: int| 0 <= i < self.writes@.len() implies #[trigger] self.writes@[i] <= g by {
            assert(self@.writes[i] <= self@.generation);
        }
        self.generation = g;
        self.pattern = p;
        proof {
            use_type_invariant(&*self);
        }
        g
    }

    /// All channels full.
    pub fn turn_led_on(&mut self) -> (g: u64)
        requires
            old(self)@.generation < u64::MAX,
        ensures
            (final(self)@, g) == start_spec(old(self)@, Pattern::Solid(WHITE)),
            final(self)@.wf(),
    {
        self.start_pattern(Pattern::Solid(WHITE))
    }

    /// All channels dark.
    pub fn turn_led_off(&mut self) -> (g: u64)
        requires
            old(self)@.generation < u64::MAX,
        ensures
            (final(self)@, g) == start_spec(old(self)@, Pattern::Off),
            final(self)@.wf(),
    {
        self.start_pattern(Pattern::Off)
    }

    /// The color, held.
    pub fn set_led_rgb_values(&mut self, rgb: Rgb) -> (g: u64)
        requires
            old(self)@.generation < u64::MAX,
        ensures
            (final(self)@, g) == start_spec(old(self)@, Pattern::Solid(rgb)),
            final(self)@.wf(),
    {
        self.start_pattern(Pattern::Solid(rgb))
    }

    /// The color blinking.
    pub fn blink_led(&mut self, rgb: Rgb) -> (g: u64)
        requires
            old(self)@.generation < u64::MAX,
        ensures
            (final(self)@, g) == start_spec(old(self)@, Pattern::Blink(rgb)),
            final(self)@.wf(),
    {
        self.start_pattern(Pattern::Blink(rgb))
    }

    /// The color glowing at the normal pace.
    pub fn glow_led(&mut self, rgb: Rgb) -> (g: u64)
        requires
            old(self)@.generation < u64::MAX,
        ensures
            (final(self)@, g) == start_spec(old(self)@, Pattern::Glow(rgb, GLOW_STEP_MS)),
            final(self)@.wf(),
    {
        self.start_pattern(Pattern::Glow(rgb, GLOW_STEP_MS))
    }

    /// The color glowing with one whole cycle in about `period_ms`.
    pub fn glow_led_period(&mut self, rgb: Rgb, period_ms: u64) -> (g: u64)
        requires
            old(self)@.generation < u64::MAX,
        ensures
            (final(self)@, g) == start_spec(
                old(self)@,
                Pattern::Glow(rgb, period_ms / GLOW_CYCLE_STEPS),
            ),
            final(self)@.wf(),
    {
        self.start_pattern(Pattern::Glow(rgb, period_ms / GLOW_CYCLE_STEPS))
    }

    /// The write that the pattern of generation `g` asks for at `step`, or
    /// `None` where that pattern has been superseded or has no more writes.
    pub fn next_write(&mut self, g: u64, step: u64) -> (r: Option<Frame>)
        ensures
            (final(self)@, r) == write_spec(old(self)@, g, step as nat),
            final(self)@.wf(),
    {
        proof {
            use_type_invariant(&*self);
        }
        if g != self.generation {
            return None;
        }
        let frame = pattern_frame_at(&self.pattern, step);
        proof {
            use_type_invariant(&*self);
        }
        if frame.is_some() {
            let ghost before = self.writes@;
            let ghost after = before.push(g);
            assert forall|i: int, j: int| 0 <= i <= j < after.len() implies #[trigger] after[i]
                <= #[trigger] after[j] by {
                if i < before.len() {
                    assert(self@.writes[i] <= self@.generation);
                }
                if j < before.len() {
                    assert(self@.writes[i] <= self@.writes[j]);
                }
            }
            assert forall|i: int| 0 <= i < after.len() implies #[trigger] after[i] <= g by {
                if i < before.len() {
                    assert(self@.writes[i] <= self@.generation);
                }
            }
            self.writes = Ghost(after);
        }
        proof {
            use_type_invariant(&*self);
        }
        frame
    }
}

} // verus!
