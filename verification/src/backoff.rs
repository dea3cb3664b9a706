//! Jittered, linearly growing delay between join attempts.
//!
//! The unjittered delay starts at ten seconds, grows by ten seconds per failed
//! attempt and stops growing at one hour. The jitter is one-sided: a delay is
//! never shorter than its base, and at most a fifth longer.

use crate::random::draw_inclusive;
use rand::rngs::StdRng;
use vstd::prelude::*;

verus! {

/// Delay before the first retry, and the amount added per failed attempt.
pub const DELAY_STEP_SECS: u16 = 10;

/// Largest unjittered delay: one hour.
pub const MAX_BASE_DELAY_SECS: u16 = 3600;

/// The jitter span is the base delay divided by this.
pub const JITTER_DIVISOR: u16 = 5;

/// Smallest retry count whose base delay is the cap.
pub const CAP_RETRIES: u16 = 359;

/// Unjittered delay in seconds after `retries` failed attempts:
/// `min(10 + 10 * retries, 3600)`.
pub open spec fn base_delay(retries: nat) -> nat {
    if 10 + 10 * retries <= 3600 {
        10 + 10 * retries
    } else {
        3600
    }
}

/// Width of the jitter in seconds: a fifth of the base delay, rounded down.
pub open spec fn jitter_span(retries: nat) -> nat {
    base_delay(retries) / 5
}

/// Whether `draw` lies in the range the random source is asked for,
/// `jitter_span ..= 2 * jitter_span`.
pub open spec fn in_draw_range(retries: nat, draw: nat) -> bool {
    jitter_span(retries) <= draw <= 2 * jitter_span(retries)
}

/// Delay in seconds for a given draw: the base less one jitter span, plus the
/// draw, held at `u16::MAX` where the sum would exceed it.
pub open spec fn jittered_delay(retries: nat, draw: nat) -> nat {
    let sum = (base_delay(retries) - jitter_span(retries) + draw) as nat;
    if sum <= u16::MAX {
        sum
    } else {
        u16::MAX as nat
    }
}

/// The base delay and jitter span that belong to one retry count.
#[derive(Clone, Copy, Debug, PartialEq, Eq, Structural)]
pub struct BackoffWindow {
    /// Unjittered delay in seconds; also the shortest delay of the window.
    pub base: u16,
    /// Seconds by which a delay may exceed `base`.
    pub jitter_span: u16,
}

/// The base delay never shrinks as failures accumulate.
pub proof fn lemma_base_delay_monotonic(earlier: nat, later: nat)
    requires
        earlier <= later,
    ensures
        base_delay(earlier) <= base_delay(later),
{
}

/// The base delay is the one-hour cap exactly from 359 failures on, and
/// below it before.
pub proof fn lemma_base_delay_cap(retries: nat)
    ensures
        10 <= base_delay(retries) <= 3600,
        retries >= 359 <==> base_delay(retries) == 3600,
{
}

/// A draw from the requested range gives a delay between the base and the
/// base plus one jitter span, both included, so the jitter only lengthens.
pub proof fn lemma_delay_within_window(retries: nat, draw: nat)
    requires
        in_draw_range(retries, draw),
    ensures
        base_delay(retries) <= jittered_delay(retries, draw) <= base_delay(retries) + jitter_span(
            retries,
        ),
        jittered_delay(retries, draw) == base_delay(retries) - jitter_span(retries) + draw,
{
}

/// Computes the backoff window for `retries` failed attempts.
pub fn backoff_window(retries: u16) -> (window: BackoffWindow)
    ensures
        window.base == base_delay(retries as nat),
        window.jitter_span == jitter_span(retries as nat),
{
    let base: u16 = if retries >= CAP_RETRIES {
        MAX_BASE_DELAY_SECS
    } else {
        DELAY_STEP_SECS + DELAY_STEP_SECS * retries
    };
    BackoffWindow { base, jitter_span: base / JITTER_DIVISOR }
}

/// Turns one draw of the random source into a delay in seconds.
///
/// Defined for every draw; for a draw from `jitter_span ..= 2 * jitter_span`
/// the result lies in the backoff window (`lemma_delay_within_window`). The
/// same retry count and draw always give the same delay.
pub fn delay_from_draw(retries: u16, draw: u16) -> (delay: u16)
    ensures
        delay == jittered_delay(retries as nat, draw as nat),
{
    let window = backoff_window(retries);
    (window.base - window.jitter_span).saturating_add(draw)
}

/// Picks the delay in seconds before the next join attempt, after `retries`
/// failed ones, consuming one draw of `rng`.
pub fn generate_delay(rng: &mut StdRng, retries: u16) -> (delay: u16)
    ensures
        base_delay(retries as nat) <= delay <= base_delay(retries as nat) + jitter_span(
            retries as nat,
        ),
        exists|draw: nat|
            in_draw_range(retries as nat, draw) && delay == #[trigger] jittered_delay(
                retries as nat,
                draw,
            ),
{
    let window = backoff_window(retries);
    let draw = draw_inclusive(rng, window.jitter_span, 2 * window.jitter_span);
    proof {
        lemma_delay_within_window(retries as nat, draw as nat);
    }
    delay_from_draw(retries, draw)
}

} // verus!
