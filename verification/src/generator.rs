//! The timeline generator: a biased random walk in (offset, score) space.
//!
//! Randomness is drawn through the `rand` crate. Each step draws whether the
//! score changed, which side scored, and how far the offset advances; the
//! deterministic part of the step is verified separately in [`apply_step`].

use vstd::prelude::*;
use crate::timeline::{
    Score, Stamp, initial_stamp, offsets_increasing, scores_non_decreasing, scores_wf,
    wf_score, wf_timeline,
};
use rand::Rng;

verus! {

/// Default number of random-walk steps in a generated game.
pub const TIMESTAMPS_COUNT: usize = 50000;

/// Default per-step probability that the score changes, as a ratio: 1/10000.
pub const PROBABILITY_SCORE_CHANGED_NUMERATOR: u32 = 1;

/// Denominator of the default score-change probability.
pub const PROBABILITY_SCORE_CHANGED_DENOMINATOR: u32 = 10000;

/// Default conditional probability that a goal is credited to the home side,
/// as a ratio: 9/20.
pub const PROBABILITY_HOME_SCORE_NUMERATOR: u32 = 9;

/// Denominator of the default home-score probability.
pub const PROBABILITY_HOME_SCORE_DENOMINATOR: u32 = 20;

/// Default inclusive upper bound on the per-step offset advance.
pub const OFFSET_MAX_STEP: i32 = 3;

/// A probability written as the exact ratio `numerator / denominator`.
#[derive(Debug, Clone, Copy)]
pub struct Probability {
    pub numerator: u32,
    pub denominator: u32,
}

impl Probability {
    /// The ratio denotes a probability in `[0, 1]`.
    pub open spec fn valid(self) -> bool {
        0 < self.denominator && self.numerator <= self.denominator
    }
}

/// Generation parameters for one game.
#[derive(Debug, Clone, Copy)]
pub struct Config {
    /// Number of random-walk steps to generate.
    pub timestamps_count: usize,
    /// Per-step probability that the score changes.
    pub probability_score_changed: Probability,
    /// Conditional probability that a goal is credited to the home side.
    pub probability_home_score: Probability,
    /// Inclusive upper bound on the per-step offset advance; the lower bound
    /// is fixed at 1.
    pub offset_max_step: i32,
}

/// Why a configuration was rejected.
#[derive(Debug, Clone, Copy, PartialEq, Eq, Structural)]
pub enum ConfigError {
    /// A probability ratio lies outside `[0, 1]`.
    InvalidProbability,
    /// The offset step bound is below 1.
    InvalidMaxStep,
    /// So many steps that the final offset could exceed the offset type.
    CountTooLarge,
}

impl Config {
    /// A configuration is valid when both probabilities denote values in
    /// `[0, 1]`, the step bound is at least 1, and the largest reachable
    /// offset still fits the offset type.
    pub open spec fn valid(self) -> bool {
        &&& self.probability_score_changed.valid()
        &&& self.probability_home_score.valid()
        &&& 1 <= self.offset_max_step
        &&& self.timestamps_count as int * self.offset_max_step as int <= i32::MAX as int
    }

    /// The outcome of validation: the first failed check, or `Ok`.
    pub open spec fn spec_validate(self) -> Result<(), ConfigError> {
        if !self.probability_score_changed.valid() || !self.probability_home_score.valid() {
            Err(ConfigError::InvalidProbability)
        } else if self.offset_max_step < 1 {
            Err(ConfigError::InvalidMaxStep)
        } else if self.timestamps_count as int * self.offset_max_step as int > i32::MAX as int {
            Err(ConfigError::CountTooLarge)
        } else {
            Ok(())
        }
    }

    /// Rejects an invalid configuration before any stamp is produced.
    pub fn validate(&self) -> (r: Result<(), ConfigError>)
        ensures
            r == self.spec_validate(),
            r is Ok <==> self.valid(),
    {
        let p_changed = self.probability_score_changed;
        let p_home = self.probability_home_score;
        if p_changed.denominator == 0 || p_changed.numerator > p_changed.denominator
            || p_home.denominator == 0 || p_home.numerator > p_home.denominator {
            return Err(ConfigError::InvalidProbability);
        }
        if self.offset_max_step < 1 {
            return Err(ConfigError::InvalidMaxStep);
        }
        if self.timestamps_count > i32::MAX as usize {
            proof {
                assert(self.timestamps_count as int * self.offset_max_step as int
                    >= self.timestamps_count as int) by (nonlinear_arith)
                    requires 1 <= self.offset_max_step;
            }
            return Err(ConfigError::CountTooLarge);
        }
        proof {
            assert((self.timestamps_count as int * self.offset_max_step as int)
                < 0x4000_0000_0000_0000) by (nonlinear_arith)
                requires
                    self.timestamps_count <= 0x7fff_ffff,
                    1 <= self.offset_max_step,
                    self.offset_max_step <= 0x7fff_ffff;
        }
        if (self.timestamps_count as i64) * (self.offset_max_step as i64) > i32::MAX as i64 {
            return Err(ConfigError::CountTooLarge);
        }
        Ok(())
    }
}

impl Default for Config {
    /// The design defaults: 50000 steps, goal probability 1/10000, home
    /// probability 9/20, offset advance within `1..=3`.
    fn default() -> (c: Config)
        ensures
            c.timestamps_count == TIMESTAMPS_COUNT,
            c.probability_score_changed == (Probability {
                numerator: PROBABILITY_SCORE_CHANGED_NUMERATOR,
                denominator: PROBABILITY_SCORE_CHANGED_DENOMINATOR,
            }),
            c.probability_home_score == (Probability {
                numerator: PROBABILITY_HOME_SCORE_NUMERATOR,
                denominator: PROBABILITY_HOME_SCORE_DENOMINATOR,
            }),
            c.offset_max_step == OFFSET_MAX_STEP,
            c.valid(),
    {
        Config {
            timestamps_count: TIMESTAMPS_COUNT,
            probability_score_changed: Probability {
                numerator: PROBABILITY_SCORE_CHANGED_NUMERATOR,
                denominator: PROBABILITY_SCORE_CHANGED_DENOMINATOR,
            },
            probability_home_score: Probability {
                numerator: PROBABILITY_HOME_SCORE_NUMERATOR,
                denominator: PROBABILITY_HOME_SCORE_DENOMINATOR,
            },
            offset_max_step: OFFSET_MAX_STEP,
        }
    }
}

/// One step never moves the walk backwards: the offset strictly advances by
/// at most `max_step`, neither tally decreases, and the tallies together grow
/// by at most one.
pub open spec fn stamp_step_ok(prev: Stamp, next: Stamp, max_step: int) -> bool {
    &&& prev.offset < next.offset
    &&& next.offset <= prev.offset + max_step
    &&& prev.score.home <= next.score.home
    &&& prev.score.away <= next.score.away
    &&& next.score.home + next.score.away <= prev.score.home + prev.score.away + 1
}

/// Every consecutive pair of stamps is one sound step apart.
pub open spec fn steps_bounded(t: Seq<Stamp>, max_step: int) -> bool {
    forall|i: int| 0 <= i < t.len() - 1 ==> #[trigger] stamp_step_ok(t[i], t[i + 1], max_step)
}

/// Relies on rand's `Rng::gen_ratio` on `thread_rng`: a draw that is `true`
/// with probability `numerator / denominator`, guaranteed `true` when the
/// ratio is one and `false` when the numerator is zero. It panics only on a
/// zero denominator or a ratio above one, which the precondition rules out.
#[verifier::external_body]
fn random_ratio(numerator: u32, denominator: u32) -> (r: bool)
    requires
        0 < denominator,
        numerator <= denominator,
    ensures
        numerator == denominator ==> r,
        numerator == 0 ==> !r,
{
    rand::thread_rng().gen_ratio(numerator, denominator)
}

/// Relies on rand's `Rng::gen_range` on `thread_rng` over `1..=max_step`: the
/// draw lies in that range. It panics only when the range is empty, which the
/// precondition rules out.
#[verifier::external_body]
fn random_offset_delta(max_step: i32) -> (r: i32)
    requires
        1 <= max_step,
    ensures
        1 <= r <= max_step,
{
    rand::thread_rng().gen_range(1..=max_step)
}

/// The deterministic core of one step, on the three random draws: the offset
/// advances by `offset_delta`, and exactly one tally grows by one when (and
/// only when) the score changed, the home tally when the home side scored.
pub fn apply_step(previous: Stamp, score_changed: bool, home_scored: bool, offset_delta: i32) -> (next: Stamp)
    requires
        1 <= offset_delta,
        previous.offset + offset_delta <= i32::MAX,
        wf_score(previous.score),
        previous.score.home < i32::MAX,
        previous.score.away < i32::MAX,
    ensures
        next.offset == previous.offset + offset_delta,
        next.score.home == previous.score.home + (if score_changed && home_scored { 1int } else { 0int }),
        next.score.away == previous.score.away + (if score_changed && !home_scored { 1int } else { 0int }),
{
    Stamp {
        offset: previous.offset + offset_delta,
        score: Score {
            home: previous.score.home + (if score_changed && home_scored { 1 } else { 0 }),
            away: previous.score.away + (if score_changed && !home_scored { 1 } else { 0 }),
        },
    }
}

/// One random-walk step under the given configuration.
pub fn generate_stamp_with(previous: Stamp, config: &Config) -> (next: Stamp)
    requires
        config.valid(),
        previous.offset + config.offset_max_step <= i32::MAX,
        wf_score(previous.score),
        previous.score.home < i32::MAX,
        previous.score.away < i32::MAX,
    ensures
        stamp_step_ok(previous, next, config.offset_max_step as int),
        wf_score(next.score),
{
    let score_changed = random_ratio(
        config.probability_score_changed.numerator,
        config.probability_score_changed.denominator,
    );
    let home_scored = random_ratio(
        config.probability_home_score.numerator,
        config.probability_home_score.denominator,
    );
    let offset_delta = random_offset_delta(config.offset_max_step);
    apply_step(previous, score_changed, home_scored, offset_delta)
}

/// One random-walk step under the default configuration.
pub fn generate_stamp(previous_value: Stamp) -> (next: Stamp)
    requires
        previous_value.offset + OFFSET_MAX_STEP <= i32::MAX,
        wf_score(previous_value.score),
        previous_value.score.home < i32::MAX,
        previous_value.score.away < i32::MAX,
    ensures
        stamp_step_ok(previous_value, next, OFFSET_MAX_STEP as int),
        wf_score(next.score),
{
    let config = Config::default();
    generate_stamp_with(previous_value, &config)
}

/// Builds the timeline for a valid configuration: the sentinel stamp followed
/// by `timestamps_count` random-walk steps.
fn generate_core(config: &Config) -> (t: Vec<Stamp>)
    requires
        config.valid(),
    ensures
        wf_timeline(t@),
        t@.len() == config.timestamps_count + 1,
        scores_non_decreasing(t@),
        steps_bounded(t@, config.offset_max_step as int),
{
    let initial = Stamp { offset: 0, score: Score { home: 0, away: 0 } };
    let mut stamps: Vec<Stamp> = Vec::new();
    stamps.push(initial);
    let mut current = initial;
    let mut i: usize = 0;
    while i < config.timestamps_count
        invariant
            config.valid(),
            i <= config.timestamps_count,
            stamps@.len() == i + 1,
            stamps@[i as int] == current,
            stamps@[0] == initial_stamp(),
            offsets_increasing(stamps@),
            scores_wf(stamps@),
            scores_non_decreasing(stamps@),
            steps_bounded(stamps@, config.offset_max_step as int),
            current.offset <= i as int * config.offset_max_step as int,
            current.score.home + current.score.away <= i,
        decreases config.timestamps_count - i,
    {
        proof {
            assert((i + 1) as int * config.offset_max_step as int
                    <= config.timestamps_count as int * config.offset_max_step as int
                && i as int * config.offset_max_step as int + config.offset_max_step as int
                    == (i + 1) as int * config.offset_max_step as int
                && config.timestamps_count as int
                    <= config.timestamps_count as int * config.offset_max_step as int)
                by (nonlinear_arith)
                requires
                    i < config.timestamps_count,
                    1 <= config.offset_max_step;
        }
        let next = generate_stamp_with(current, config);
        stamps.push(next);
        current = next;
        i = i + 1;
    }
    stamps
}

/// Generates a timeline under the given configuration, rejecting an invalid
/// one before any stamp is produced.
pub fn generate(config: &Config) -> (r: Result<Vec<Stamp>, ConfigError>)
    ensures
        r is Ok <==> config.valid(),
        r matches Err(e) ==> config.spec_validate() == Result::<(), ConfigError>::Err(e),
        r matches Ok(t) ==> wf_timeline(t@)
            && t@.len() == config.timestamps_count + 1
            && scores_non_decreasing(t@)
            && steps_bounded(t@, config.offset_max_step as int),
{
    match config.validate() {
        Ok(()) => Ok(generate_core(config)),
        Err(e) => Err(e),
    }
}

/// Generates a game under the default configuration.
pub fn generate_game() -> (t: Vec<Stamp>)
    ensures
        wf_timeline(t@),
        t@.len() == TIMESTAMPS_COUNT + 1,
        scores_non_decreasing(t@),
        steps_bounded(t@, OFFSET_MAX_STEP as int),
{
    let config = Config::default();
    generate_core(&config)
}

} // verus!
