//! Reconnect policy: how long to wait before the next connection attempt.
//!
//! The wait grows as `base * 2^attempt`, is capped at a maximum, and gets a
//! random share of the capped value added on top so that many clients that
//! lost their server together do not all come back together.

use vstd::arithmetic::power2::{lemma_pow2_strictly_increases, lemma_pow2_unfold, pow2};
use vstd::prelude::*;

verus! {

/// One more than the largest random draw: draws are `u32`, read as the
/// fraction `draw / RANDOM_SPAN` in `[0, 1)`.
pub const RANDOM_SPAN: u64 = 4294967296;

/// Thousandths in a whole: the jitter factor is held in thousandths.
pub const PERMILLE: u32 = 1000;

/// Configuration for reconnecting with exponential backoff.
#[derive(Debug, Clone, Copy, PartialEq, Eq, Structural)]
pub struct ReconnectConfig {
    /// Delay before the first retry, in milliseconds.
    pub base_delay_ms: u32,
    /// Upper limit of the delay before jitter, in milliseconds.
    pub max_delay_ms: u32,
    /// Jitter factor in thousandths, `0..=1000`; larger values count as 1000.
    pub jitter_permille: u32,
    /// Number of retries allowed; `None` is no limit.
    pub max_attempts: Option<u32>,
}

/// `base * 2^attempt`, capped at `max`.
pub open spec fn capped_delay(base: nat, max: nat, attempt: nat) -> nat {
    if base * pow2(attempt) <= max {
        base * pow2(attempt)
    } else {
        max
    }
}

/// The largest jitter that can be added to a capped delay.
pub open spec fn jitter_range(capped: nat, permille: nat) -> nat {
    let factor = if permille <= PERMILLE { permille } else { PERMILLE as nat };
    capped * factor / (PERMILLE as nat)
}

/// The jitter a random draw picks out of `0 ..= range`: the draw is read as
/// a fraction of `RANDOM_SPAN`.
pub open spec fn jitter_share(range: nat, random: nat) -> nat {
    range * random / (RANDOM_SPAN as nat)
}

/// The delay in milliseconds before retry number `attempt`, for one random
/// draw, before it is fitted into `u32`.
pub open spec fn backoff_delay(config: ReconnectConfig, attempt: nat, random: nat) -> nat {
    let capped = capped_delay(config.base_delay_ms as nat, config.max_delay_ms as nat, attempt);
    capped + jitter_share(jitter_range(capped, config.jitter_permille as nat), random)
}

impl Default for ReconnectConfig {
    fn default() -> (config: Self)
        ensures
            config == ReconnectConfig::spec_default(),
    {
        ReconnectConfig {
            base_delay_ms: 500,
            max_delay_ms: 30_000,
            jitter_permille: 300,
            max_attempts: None,
        }
    }
}

impl ReconnectConfig {
    /// The policy used where none is given: half a second at first, thirty
    /// seconds at most, three tenths of jitter, no limit on attempts.
    pub open spec fn spec_default() -> ReconnectConfig {
        ReconnectConfig {
            base_delay_ms: 500,
            max_delay_ms: 30_000,
            jitter_permille: 300,
            max_attempts: None,
        }
    }

    /// The default policy.
    pub fn new() -> (config: Self)
        ensures
            config == ReconnectConfig::spec_default(),
    {
        ReconnectConfig {
            base_delay_ms: 500,
            max_delay_ms: 30_000,
            jitter_permille: 300,
            max_attempts: None,
        }
    }

    /// This policy with `ms` milliseconds as the delay before the first
    /// retry.
    pub fn base_delay(self, ms: u32) -> (config: Self)
        ensures
            config == (ReconnectConfig { base_delay_ms: ms, ..self }),
    {
        ReconnectConfig { base_delay_ms: ms, ..self }
    }

    /// This policy with `ms` milliseconds as the upper limit of the delay
    /// before jitter.
    pub fn max_delay(self, ms: u32) -> (config: Self)
        ensures
            config == (ReconnectConfig { max_delay_ms: ms, ..self }),
    {
        ReconnectConfig { max_delay_ms: ms, ..self }
    }

    /// This policy with a jitter factor of `permille` thousandths, or of
    /// one whole where `permille` is larger than that.
    pub fn jitter(self, permille: u32) -> (config: Self)
        ensures
            config == (ReconnectConfig {
                jitter_permille: if permille <= PERMILLE {
                    permille
                } else {
                    PERMILLE
                },
                ..self
            }),
            config.jitter_permille <= PERMILLE,
    {
        let clamped: u32 = if permille <= PERMILLE {
            permille
        } else {
            PERMILLE
        };
        ReconnectConfig { jitter_permille: clamped, ..self }
    }

    /// This policy with at most `attempts` retries.
    pub fn max_attempts(self, attempts: u32) -> (config: Self)
        ensures
            config == (ReconnectConfig { max_attempts: Some(attempts), ..self }),
    {
        ReconnectConfig { max_attempts: Some(attempts), ..self }
    }

    /// The delay the policy asks for, as a `u32`: `backoff_delay`, or
    /// `u32::MAX` where that is larger.
    pub open spec fn spec_delay(self, attempt: u32, random: u32) -> u32 {
        let delay = backoff_delay(self, attempt as nat, random as nat);
        if delay <= u32::MAX {
            delay as u32
        } else {
            u32::MAX
        }
    }

    /// `min(base * 2^attempt, max)` without leaving `u64`.
    fn capped(&self, attempt: u32) -> (capped: u64)
        ensures
            capped == capped_delay(
                self.base_delay_ms as nat,
                self.max_delay_ms as nat,
                attempt as nat,
            ),
            capped <= self.max_delay_ms,
    {
        let base: u64 = self.base_delay_ms as u64;
        let max: u64 = self.max_delay_ms as u64;
        if base == 0 {
            assert(0 * pow2(attempt as nat) == 0) by (nonlinear_arith);
            return 0;
        }
        let mut value: u64 = base;
        let mut doubled: u32 = 0;
        proof {
            lemma_pow2_unfold(1);
            assert(pow2(0) == 1) by {
                vstd::arithmetic::power2::lemma2_to64();
            }
        }
        while doubled < attempt && value <= max
            invariant
                doubled <= attempt,
                base == self.base_delay_ms,
                max == self.max_delay_ms,
                base >= 1,
                value == base * pow2(doubled as nat),
                value <= 2 * max || doubled == 0,
                value <= 2 * (u32::MAX as u64),
            decreases attempt - doubled,
        {
            proof {
                lemma_pow2_unfold((doubled + 1) as nat);
                assert(2 * (base * pow2(doubled as nat)) == base * (2 * pow2(doubled as nat)))
                    by (nonlinear_arith);
            }
            value = value * 2;
            doubled = doubled + 1;
        }
        if value <= max {
            value
        } else {
            proof {
                // the product only grows from `doubled` doublings to `attempt`
                if doubled < attempt {
                    lemma_pow2_strictly_increases(doubled as nat, attempt as nat);
                }
                assert(base * pow2(doubled as nat) <= base * pow2(attempt as nat))
                    by (nonlinear_arith)
                    requires
                        pow2(doubled as nat) <= pow2(attempt as nat),
                        base >= 1,
                ;
            }
            max
        }
    }

    /// The delay in milliseconds before retry number `attempt`, where
    /// `random` is a uniform draw from the whole of `u32`.
    ///
    /// With a base no larger than the maximum, the delay is never below the
    /// base; it is never above the maximum plus the maximum's jitter share.
    pub fn delay_for_attempt(&self, attempt: u32, random: u32) -> (delay: u32)
        ensures
            delay == self.spec_delay(attempt, random),
            self.base_delay_ms <= self.max_delay_ms ==> delay >= self.base_delay_ms,
            delay * 1000 <= self.max_delay_ms * (1000 + self.jitter_permille),
            delay <= 2 * self.max_delay_ms,
    {
        let capped: u64 = self.capped(attempt);
        let factor: u64 = if self.jitter_permille <= PERMILLE {
            self.jitter_permille as u64
        } else {
            PERMILLE as u64
        };
        assert(capped * factor <= 4294967295 * 1000) by (nonlinear_arith)
            requires
                capped <= 4294967295,
                factor <= 1000,
        ;
        let range: u64 = capped * factor / (PERMILLE as u64);
        assert(range <= capped && range * 1000 <= capped * factor) by (nonlinear_arith)
            requires
                range == capped * factor / 1000,
                factor <= 1000,
        ;
        assert(range * (random as u64) <= 4294967295 * 4294967295) by (nonlinear_arith)
            requires
                range <= 4294967295,
                random <= 4294967295,
        ;
        let jitter: u64 = range * (random as u64) / RANDOM_SPAN;
        assert(jitter <= range) by (nonlinear_arith)
            requires
                jitter == range * (random as u64) / 4294967296,
                random < 4294967296,
        ;
        let total: u64 = capped + jitter;
        proof {
            lemma_delay_floor(*self, attempt as nat);
            assert(total * 1000 <= self.max_delay_ms * (1000 + self.jitter_permille))
                by (nonlinear_arith)
                requires
                    total == capped + jitter,
                    jitter <= range,
                    range * 1000 <= capped * factor,
                    factor <= self.jitter_permille,
                    capped <= self.max_delay_ms,
            ;
        }
        if total <= u32::MAX as u64 {
            total as u32
        } else {
            u32::MAX
        }
    }
}

/// The capped delay is at least the base, where the base is no larger than
/// the maximum.
pub proof fn lemma_delay_floor(config: ReconnectConfig, attempt: nat)
    ensures
        config.base_delay_ms <= config.max_delay_ms ==> capped_delay(
            config.base_delay_ms as nat,
            config.max_delay_ms as nat,
            attempt,
        ) >= config.base_delay_ms,
{
    vstd::arithmetic::power2::lemma_pow2_pos(attempt);
    assert(config.base_delay_ms * pow2(attempt) >= config.base_delay_ms) by (nonlinear_arith)
        requires
            pow2(attempt) >= 1,
    ;
}

/// Whatever the attempt and the draw, the delay is within its bounds: never
/// below the base, where the base is no larger than the maximum, and never
/// above the maximum with its full share of jitter on top.
pub proof fn lemma_delay_within_bounds(config: ReconnectConfig, attempt: u32, random: u32)
    ensures
        config.base_delay_ms <= config.max_delay_ms ==> config.spec_delay(attempt, random)
            >= config.base_delay_ms,
        config.spec_delay(attempt, random) * 1000 <= config.max_delay_ms * (1000
            + config.jitter_permille),
{
    let base = config.base_delay_ms as nat;
    let max = config.max_delay_ms as nat;
    let capped = capped_delay(base, max, attempt as nat);
    let permille = config.jitter_permille as nat;
    let factor = if permille <= PERMILLE { permille } else { PERMILLE as nat };
    let range = jitter_range(capped, permille);
    let jitter = jitter_share(range, random as nat);
    lemma_delay_floor(config, attempt as nat);
    assert(range * 1000 <= capped * factor) by (nonlinear_arith)
        requires
            range == capped * factor / 1000,
    ;
    assert(jitter <= range) by (nonlinear_arith)
        requires
            jitter == range * (random as nat) / 4294967296,
            random < 4294967296,
    ;
    assert((capped + jitter) * 1000 <= max * (1000 + permille)) by (nonlinear_arith)
        requires
            jitter <= range,
            range * 1000 <= capped * factor,
            factor <= permille,
            capped <= max,
    ;
}

/// The capped delay does not shrink as the attempt number grows.
pub proof fn lemma_capped_delay_monotone(base: nat, max: nat, earlier: nat, later: nat)
    requires
        earlier <= later,
    ensures
        capped_delay(base, max, earlier) <= capped_delay(base, max, later),
{
    if earlier < later {
        lemma_pow2_strictly_increases(earlier, later);
    }
    assert(base * pow2(earlier) <= base * pow2(later)) by (nonlinear_arith)
        requires
            pow2(earlier) <= pow2(later),
    ;
}

/// For one and the same random draw, a later attempt never waits less than
/// an earlier one: the delay is non-decreasing in the attempt number, draw
/// by draw and so on average too.
pub proof fn lemma_delay_monotone(config: ReconnectConfig, earlier: u32, later: u32, random: u32)
    requires
        earlier <= later,
    ensures
        backoff_delay(config, earlier as nat, random as nat) <= backoff_delay(
            config,
            later as nat,
            random as nat,
        ),
        config.spec_delay(earlier, random) <= config.spec_delay(later, random),
{
    let base = config.base_delay_ms as nat;
    let max = config.max_delay_ms as nat;
    let low = capped_delay(base, max, earlier as nat);
    let high = capped_delay(base, max, later as nat);
    lemma_capped_delay_monotone(base, max, earlier as nat, later as nat);
    let permille = config.jitter_permille as nat;
    let factor = if permille <= PERMILLE { permille } else { PERMILLE as nat };
    assert(low * factor <= high * factor) by (nonlinear_arith)
        requires
            low <= high,
    ;
    vstd::arithmetic::div_mod::lemma_div_is_ordered(
        (low * factor) as int,
        (high * factor) as int,
        PERMILLE as int,
    );
    let low_range = jitter_range(low, permille);
    let high_range = jitter_range(high, permille);
    assert(low_range * (random as nat) <= high_range * (random as nat)) by (nonlinear_arith)
        requires
            low_range <= high_range,
    ;
    vstd::arithmetic::div_mod::lemma_div_is_ordered(
        (low_range * (random as nat)) as int,
        (high_range * (random as nat)) as int,
        RANDOM_SPAN as int,
    );
}

/// Once `base * 2^attempt` has reached the maximum, the delay before jitter
/// stays at the maximum for every later attempt.
pub proof fn lemma_delay_stays_capped(config: ReconnectConfig, attempt: nat, later: nat)
    requires
        attempt <= later,
        config.base_delay_ms * pow2(attempt) >= config.max_delay_ms,
    ensures
        capped_delay(config.base_delay_ms as nat, config.max_delay_ms as nat, later)
            == config.max_delay_ms,
{
    if attempt < later {
        lemma_pow2_strictly_increases(attempt, later);
    }
    assert(config.base_delay_ms * pow2(attempt) <= config.base_delay_ms * pow2(later))
        by (nonlinear_arith)
        requires
            pow2(attempt) <= pow2(later),
    ;
}

} // verus!
