//! The cadence the game plays at: the tick rate it is computed at, and the
//! speeds a player may choose between.
//!
//! Only the *choice* lives here. Holding to it is the engine's business: it
//! scales this cadence by the chosen speed and throttles it when a tick, or a
//! peer, cannot keep up.
use vstd::prelude::*;

verus! {

/// The cadence one tick is computed at when nothing scales it, in ticks per
/// second. The engine never states a rate of its own: it scales this one by the
/// session's speed.
pub const NOMINAL_TICK_HZ: u64 = 20;

/// A positive speed factor, held exactly as a ratio of two whole numbers.
#[derive(Clone, Copy, Debug)]
pub struct GameSpeed {
    pub numerator: u64,
    pub denominator: u64,
}

impl GameSpeed {
    /// The rational value the factor stands for: two factors are the same
    /// speed exactly when their cross products agree.
    pub open spec fn same_speed(self, other: GameSpeed) -> bool {
        self.numerator * other.denominator == other.numerator * self.denominator
    }

    /// A usable factor: a ratio with a denominator.
    pub open spec fn wf(self) -> bool {
        0 < self.denominator
    }

    /// Whether two factors name the same speed.
    pub fn same_as(&self, other: &GameSpeed) -> (same: bool)
        requires
            self.wf(),
            other.wf(),
        ensures
            same == self.same_speed(*other),
    {
        proof {
            lemma_cross_fits(self.numerator, other.denominator);
            lemma_cross_fits(other.numerator, self.denominator);
        }
        (self.numerator as u128) * (other.denominator as u128) == (other.numerator as u128) * (
        self.denominator as u128)
    }
}

proof fn lemma_cross_fits(a: u64, b: u64)
    ensures
        0 <= a * b <= u128::MAX,
{
    assert(0 <= a * b <= (u64::MAX as int) * (u64::MAX as int)) by (nonlinear_arith)
        requires
            0 <= a <= u64::MAX,
            0 <= b <= u64::MAX,
    ;
}

/// A speed the game offers. The engine takes any positive factor; these are the
/// steps a player may pick from, and the top two are fast-forward, offered only
/// where nobody is competing (a replay, or a game off the network).
#[derive(Clone, Copy, Debug, PartialEq, Eq, Structural)]
pub enum SpeedStep {
    Slowest,
    Slow,
    Normal,
    Fast,
    Faster,
    Fastest,
}

impl Default for SpeedStep {
    fn default() -> (step: SpeedStep)
        ensures
            step == SpeedStep::Normal,
    {
        SpeedStep::Normal
    }
}

/// Every rung, slowest first.
pub const LADDER: [SpeedStep; 6] = [
    SpeedStep::Slowest,
    SpeedStep::Slow,
    SpeedStep::Normal,
    SpeedStep::Fast,
    SpeedStep::Faster,
    SpeedStep::Fastest,
];

/// A rung's position on the ladder, slowest at zero.
pub open spec fn rung(step: SpeedStep) -> int {
    match step {
        SpeedStep::Slowest => 0,
        SpeedStep::Slow => 1,
        SpeedStep::Normal => 2,
        SpeedStep::Fast => 3,
        SpeedStep::Faster => 4,
        SpeedStep::Fastest => 5,
    }
}

/// The step on rung `i`.
pub open spec fn step_at(i: int) -> SpeedStep
    recommends
        0 <= i < 6,
{
    if i <= 0 {
        SpeedStep::Slowest
    } else if i == 1 {
        SpeedStep::Slow
    } else if i == 2 {
        SpeedStep::Normal
    } else if i == 3 {
        SpeedStep::Fast
    } else if i == 4 {
        SpeedStep::Faster
    } else {
        SpeedStep::Fastest
    }
}

/// The ratio a step scales the nominal cadence by, as (numerator, denominator).
pub open spec fn factor_of(step: SpeedStep) -> (u64, u64) {
    match step {
        SpeedStep::Slowest => (1, 4),
        SpeedStep::Slow => (1, 2),
        SpeedStep::Normal => (1, 1),
        SpeedStep::Fast => (2, 1),
        SpeedStep::Faster => (4, 1),
        SpeedStep::Fastest => (8, 1),
    }
}

/// The session speed a step asks for.
pub open spec fn speed_of(step: SpeedStep) -> GameSpeed {
    GameSpeed { numerator: factor_of(step).0, denominator: factor_of(step).1 }
}

/// How a step reads on screen.
pub open spec fn label_of(step: SpeedStep) -> Seq<char> {
    match step {
        SpeedStep::Slowest => "0.25x"@,
        SpeedStep::Slow => "0.5x"@,
        SpeedStep::Normal => "1x"@,
        SpeedStep::Fast => "2x"@,
        SpeedStep::Faster => "4x"@,
        SpeedStep::Fastest => "8x"@,
    }
}

impl SpeedStep {
    /// The factor this step scales the nominal cadence by. Every step lands on a
    /// whole number of ticks per second against [`NOMINAL_TICK_HZ`].
    pub fn factor(self) -> (factor: (u64, u64))
        ensures
            factor == factor_of(self),
    {
        match self {
            SpeedStep::Slowest => (1, 4),
            SpeedStep::Slow => (1, 2),
            SpeedStep::Normal => (1, 1),
            SpeedStep::Fast => (2, 1),
            SpeedStep::Faster => (4, 1),
            SpeedStep::Fastest => (8, 1),
        }
    }

    /// The session speed this step asks for.
    pub fn speed(self) -> (speed: GameSpeed)
        ensures
            speed == speed_of(self),
            speed.wf(),
    {
        let (numerator, denominator) = self.factor();
        GameSpeed { numerator, denominator }
    }

    /// Whether this step is a fast-forward one, past the pace a game is meant to
    /// be played at.
    pub fn fast_forward(self) -> (fast: bool)
        ensures
            fast <==> (self == SpeedStep::Faster || self == SpeedStep::Fastest),
    {
        match self {
            SpeedStep::Faster | SpeedStep::Fastest => true,
            SpeedStep::Slowest | SpeedStep::Slow | SpeedStep::Normal | SpeedStep::Fast => false,
        }
    }

    /// The next step up, or this one at the top of the ladder.
    pub fn faster(self) -> (next: SpeedStep)
        ensures
            next == step_at(if rung(self) < 5 { rung(self) + 1 } else { 5 }),
    {
        match self {
            SpeedStep::Slowest => SpeedStep::Slow,
            SpeedStep::Slow => SpeedStep::Normal,
            SpeedStep::Normal => SpeedStep::Fast,
            SpeedStep::Fast => SpeedStep::Faster,
            SpeedStep::Faster | SpeedStep::Fastest => SpeedStep::Fastest,
        }
    }

    /// The next step down, or this one at the bottom of the ladder.
    pub fn slower(self) -> (next: SpeedStep)
        ensures
            next == step_at(if rung(self) > 0 { rung(self) - 1 } else { 0 }),
    {
        match self {
            SpeedStep::Slowest | SpeedStep::Slow => SpeedStep::Slowest,
            SpeedStep::Normal => SpeedStep::Slow,
            SpeedStep::Fast => SpeedStep::Normal,
            SpeedStep::Faster => SpeedStep::Fast,
            SpeedStep::Fastest => SpeedStep::Faster,
        }
    }

    /// How this step reads on screen.
    pub fn label(self) -> (text: &'static str)
        ensures
            text@ == label_of(self),
    {
        match self {
            SpeedStep::Slowest => "0.25x",
            SpeedStep::Slow => "0.5x",
            SpeedStep::Normal => "1x",
            SpeedStep::Fast => "2x",
            SpeedStep::Faster => "4x",
            SpeedStep::Fastest => "8x",
        }
    }

    /// The rung `speed` sits on.
    ///
    /// The session is the one owner of the game's speed, so the rung is derived
    /// from it wherever the keys step or the readout names it. Every speed the
    /// session can hold came from this ladder, so the lookup finds its step; the
    /// fallback is for a factor no honest node can produce.
    pub fn of(speed: GameSpeed) -> (step: SpeedStep)
        requires
            speed.wf(),
        ensures
            step == step_of_speed(speed),
    {
        let mut i: usize = 0;
        while i < 6
            invariant
                0 <= i <= 6,
                speed.wf(),
                step_of_speed(speed) == first_match(speed, i as int),
            decreases 6 - i,
        {
            let step = LADDER[i];
            assert(step == step_at(i as int));
            let candidate = step.speed();
            if candidate.same_as(&speed) {
                proof {
                    lemma_same_speed_symmetric(candidate, speed);
                }
                return step;
            }
            proof {
                lemma_same_speed_symmetric(candidate, speed);
            }
            i = i + 1;
        }
        SpeedStep::Normal
    }
}

proof fn lemma_same_speed_symmetric(a: GameSpeed, b: GameSpeed)
    ensures
        a.same_speed(b) <==> b.same_speed(a),
{
}

/// The first rung from `i` up whose speed is `speed`, or the normal pace
/// when none is.
pub open spec fn first_match(speed: GameSpeed, i: int) -> SpeedStep
    decreases 6 - i,
{
    if i >= 6 {
        SpeedStep::Normal
    } else if speed.same_speed(speed_of(step_at(i))) {
        step_at(i)
    } else {
        first_match(speed, i + 1)
    }
}

/// The rung a session speed sits on: the slowest step of that speed, or the
/// normal pace for a factor the ladder does not offer.
pub open spec fn step_of_speed(speed: GameSpeed) -> SpeedStep {
    first_match(speed, 0)
}

/// Every step lands on a whole number of ticks per second against the nominal
/// cadence.
pub proof fn law_whole_ticks_per_second(step: SpeedStep)
    ensures
        (NOMINAL_TICK_HZ * factor_of(step).0) % (factor_of(step).1 as int) == 0,
{
    match step {
        SpeedStep::Slowest => assert((20 * 1int) % 4 == 0),
        SpeedStep::Slow => assert((20 * 1int) % 2 == 0),
        _ => assert(forall|k: int| #[trigger] (k % 1) == 0),
    }
}

/// A step's speed in quarters of the nominal pace.
pub open spec fn quarters(step: SpeedStep) -> int {
    match step {
        SpeedStep::Slowest => 1,
        SpeedStep::Slow => 2,
        SpeedStep::Normal => 4,
        SpeedStep::Fast => 8,
        SpeedStep::Faster => 16,
        SpeedStep::Fastest => 32,
    }
}

proof fn lemma_factor_in_quarters(step: SpeedStep)
    ensures
        factor_of(step).0 * 4 == quarters(step) * factor_of(step).1,
        factor_of(step).1 == 1 || factor_of(step).1 == 2 || factor_of(step).1 == 4,
{
}

proof fn lemma_same_speed_same_quarters(a: SpeedStep, b: SpeedStep)
    ensures
        speed_of(a).same_speed(speed_of(b)) <==> quarters(a) == quarters(b),
{
    lemma_factor_in_quarters(a);
    lemma_factor_in_quarters(b);
    let (na, da) = factor_of(a);
    let (nb, db) = factor_of(b);
    assert(na * db * 4 == quarters(a) * da * db) by (nonlinear_arith)
        requires
            na * 4 == quarters(a) * da,
    ;
    assert(nb * da * 4 == quarters(b) * db * da) by (nonlinear_arith)
        requires
            nb * 4 == quarters(b) * db,
    ;
    assert(quarters(a) * da * db == quarters(a) * (da * db)) by (nonlinear_arith);
    assert(quarters(b) * db * da == quarters(b) * (da * db)) by (nonlinear_arith);
    assert(da * db > 0) by (nonlinear_arith)
        requires
            da > 0,
            db > 0,
    ;
    if quarters(a) != quarters(b) {
        assert(quarters(a) * (da * db) != quarters(b) * (da * db)) by (nonlinear_arith)
            requires
                quarters(a) != quarters(b),
                da * db > 0,
        ;
    }
}

/// The ladder climbs: each rung is strictly faster than the one below it.
pub proof fn law_ladder_strictly_faster(i: int, j: int)
    requires
        0 <= i < j < 6,
    ensures
        factor_of(step_at(i)).0 * factor_of(step_at(j)).1 < factor_of(step_at(j)).0 * factor_of(
            step_at(i),
        ).1,
{
    let a = step_at(i);
    let b = step_at(j);
    lemma_factor_in_quarters(a);
    lemma_factor_in_quarters(b);
    assert(quarters(a) < quarters(b));
    let (na, da) = factor_of(a);
    let (nb, db) = factor_of(b);
    assert(na * db * 4 < nb * da * 4) by (nonlinear_arith)
        requires
            na * 4 == quarters(a) * da,
            nb * 4 == quarters(b) * db,
            quarters(a) < quarters(b),
            da > 0,
            db > 0,
    ;
}

/// Stepping up and then down returns to where it started, except at the top
/// of the ladder; stepping down and then up likewise, except at the bottom.
pub proof fn law_steps_undo(step: SpeedStep)
    ensures
        step != SpeedStep::Fastest ==> step_at(rung(step_at(rung(step) + 1)) - 1) == step,
        step != SpeedStep::Slowest ==> step_at(rung(step_at(rung(step) - 1)) + 1) == step,
        step_at(rung(step)) == step,
{
}

/// The rung lookup finds every step the ladder offers: a step's own speed
/// reads back as that step.
pub proof fn law_rung_of_own_speed(step: SpeedStep)
    ensures
        step_of_speed(speed_of(step)) == step,
{
    assert forall|other: SpeedStep| #[trigger]
        speed_of(step).same_speed(speed_of(other)) <==> other == step by {
        lemma_same_speed_same_quarters(step, other);
        match step {
            SpeedStep::Slowest => {},
            SpeedStep::Slow => {},
            SpeedStep::Normal => {},
            SpeedStep::Fast => {},
            SpeedStep::Faster => {},
            SpeedStep::Fastest => {},
        }
        match other {
            SpeedStep::Slowest => {},
            SpeedStep::Slow => {},
            SpeedStep::Normal => {},
            SpeedStep::Fast => {},
            SpeedStep::Faster => {},
            SpeedStep::Fastest => {},
        }
    }
    let sp = speed_of(step);
    assert(step_at(0) == SpeedStep::Slowest);
    assert(step_at(1) == SpeedStep::Slow);
    assert(step_at(2) == SpeedStep::Normal);
    assert(step_at(3) == SpeedStep::Fast);
    assert(step_at(4) == SpeedStep::Faster);
    assert(step_at(5) == SpeedStep::Fastest);
    assert(first_match(sp, 6) == SpeedStep::Normal);
    assert(first_match(sp, 5) == if step == SpeedStep::Fastest { SpeedStep::Fastest } else { SpeedStep::Normal });
    assert(first_match(sp, 4) == if rung(step) >= 4 { step } else { SpeedStep::Normal });
    assert(first_match(sp, 3) == if rung(step) >= 3 { step } else { SpeedStep::Normal });
    assert(first_match(sp, 2) == if rung(step) >= 2 { step } else { SpeedStep::Normal });
    assert(first_match(sp, 1) == if rung(step) >= 1 { step } else { SpeedStep::Normal });
    assert(first_match(sp, 0) == step);
}

/// Fast-forward is exactly the steps above twice the nominal pace.
pub proof fn law_fast_forward_above_double(step: SpeedStep)
    ensures
        (step == SpeedStep::Faster || step == SpeedStep::Fastest) <==> factor_of(step).0 > 2
            * factor_of(step).1,
{
}

} // verus!
