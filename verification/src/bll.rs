//! The rules by which two players' ratings move after a match.
//!
//! The size of a move comes from a logarithmic formula in floating point,
//! which this library does not hold: callers hand in what the formula gave
//! ([`RateDeltas`]). Everything around it is here: which formula applies,
//! how the ratings are carried through `f64`, the cap on a move, and the
//! saturating arithmetic.
use vstd::prelude::*;

verus! {

/// The least integer from which `f64` can no longer hold every integer.
pub open spec fn f64_exact_limit() -> nat {
    0x20_0000_0000_0000
}

/// The distance between neighbouring `f64` values near `x`, for
/// non-negative integers `x`.
pub open spec fn f64_spacing(x: nat) -> nat
    decreases x,
{
    if x < f64_exact_limit() {
        1
    } else {
        2 * f64_spacing(x / 2)
    }
}

/// The `f64` nearest to `x`, ties to the one with an even significand: the
/// value that `x as f64` takes.
pub open spec fn f64_nearest(x: nat) -> nat {
    let u = f64_spacing(x);
    let q = x / u;
    let r = x % u;
    if 2 * r > u || (2 * r == u && q % 2 == 1) {
        (q + 1) * u
    } else {
        q * u
    }
}

/// What `x as f64 as u64` gives: the nearest `f64`, brought back with
/// saturation at `u64::MAX`.
pub open spec fn spec_through_f64(x: u64) -> u64 {
    let y = f64_nearest(x as nat);
    if y > u64::MAX {
        u64::MAX
    } else {
        y as u64
    }
}

/// The spacing is a positive power of two no larger than `x / 2^52`.
proof fn lemma_spacing_bound(x: nat)
    ensures
        f64_spacing(x) >= 1,
        x >= f64_exact_limit() ==> f64_spacing(x) * 0x10_0000_0000_0000 <= x,
    decreases x,
{
    if x >= f64_exact_limit() {
        lemma_spacing_bound(x / 2);
    }
}

/// Below `2^53` an integer passes through `f64` unchanged.
pub proof fn lemma_through_f64_exact(x: u64)
    requires
        x < f64_exact_limit(),
    ensures
        spec_through_f64(x) == x,
{
    assert(f64_spacing(x as nat) == 1);
    assert((x as nat) / 1 == x as nat);
    assert((x as nat) % 1 == 0);
    assert(x as nat * 1 == x as nat);
}

/// The spacing of `f64` values near `x`.
fn spacing_of(x: u64) -> (u: u64)
    ensures
        u as nat == f64_spacing(x as nat),
        1 <= u < 4096,
    decreases x,
{
    proof { lemma_spacing_bound(x as nat); }
    if x < 0x20_0000_0000_0000 {
        1
    } else {
        2 * spacing_of(x / 2)
    }
}

/// Carries `x` through `f64` and back, as `x as f64 as u64` does.
pub fn through_f64(x: u64) -> (y: u64)
    ensures
        y == spec_through_f64(x),
{
    let u = spacing_of(x);
    let q = x / u;
    let r = x % u;
    proof {
        vstd::arithmetic::div_mod::lemma_fundamental_div_mod(x as int, u as int);
        assert(q * u <= x) by (nonlinear_arith)
            requires
                x == u * q + r,
                r >= 0,
        ;
        assert((q + 1) * u == q * u + u) by (nonlinear_arith);
    }
    if 2 * r > u || (2 * r == u && q % 2 == 1) {
        let up: u128 = (q as u128) * (u as u128) + (u as u128);
        if up > 0xffff_ffff_ffff_ffff {
            0xffff_ffff_ffff_ffff
        } else {
            up as u64
        }
    } else {
        q * u
    }
}

/// Which of the two formulas a match calls for.
#[derive(Debug, PartialEq, Eq, Structural, Clone, Copy)]
pub enum MatchClass {
    /// The winner's rating was at least the loser's.
    FavoriteWon,
    /// The winner's rating was below the loser's.
    UnderdogWon,
}

/// The class of a match, comparing the two ratings as `f64` values.
pub open spec fn spec_classify_match(win: u64, lose: u64) -> MatchClass {
    if spec_through_f64(win) >= spec_through_f64(lose) {
        MatchClass::FavoriteWon
    } else {
        MatchClass::UnderdogWon
    }
}

/// For ratings that `f64` holds exactly, the favourite's formula applies
/// exactly when the winner's rating is at least the loser's.
pub proof fn lemma_classify_exact(win: u64, lose: u64)
    requires
        win < f64_exact_limit(),
        lose < f64_exact_limit(),
    ensures
        (spec_classify_match(win, lose) == MatchClass::FavoriteWon) == (win >= lose),
{
    lemma_through_f64_exact(win);
    lemma_through_f64_exact(lose);
}

/// Which formula applies to a match that the player rated `win` won
/// against the player rated `lose`.
pub fn classify_match(win: u64, lose: u64) -> (class: MatchClass)
    ensures
        class == spec_classify_match(win, lose),
{
    if through_f64(win) >= through_f64(lose) {
        MatchClass::FavoriteWon
    } else {
        MatchClass::UnderdogWon
    }
}

/// What the formula of a match's class gave, before the cap: how much the
/// winner gains and how much the loser loses.
#[derive(Debug, Clone, Copy)]
pub struct RateDeltas {
    pub gain: u64,
    pub loss: u64,
}

/// The smaller of `a` and `b`.
pub open spec fn spec_min(a: u64, b: u64) -> u64 {
    if a < b {
        a
    } else {
        b
    }
}

/// The new ratings of the winner and the loser: each is carried through
/// `f64`, the winner gains the formula's gain and the loser loses the
/// formula's loss, each capped at `max_delta_rate`, with the sums held
/// within `0..=u64::MAX`.
pub open spec fn spec_rate_calculation(win: u64, lose: u64, gain: u64, loss: u64, max_delta_rate: u64) -> (u64, u64) {
    let w = spec_through_f64(win);
    let l = spec_through_f64(lose);
    let g = spec_min(gain, max_delta_rate);
    let s = spec_min(loss, max_delta_rate);
    (
        if w + g > u64::MAX { u64::MAX } else { (w + g) as u64 },
        if l - s < 0 { 0 } else { (l - s) as u64 },
    )
}

/// The ratings of the winner (`win`) and the loser (`lose`) after their
/// match, given what the formula of the match's class gave.
pub fn rate_calculation(win: u64, lose: u64, deltas: RateDeltas, max_delta_rate: u64) -> (rates: (u64, u64))
    ensures
        rates == spec_rate_calculation(win, lose, deltas.gain, deltas.loss, max_delta_rate),
{
    let delta_win = if deltas.gain < max_delta_rate { deltas.gain } else { max_delta_rate };
    let delta_lose = if deltas.loss < max_delta_rate { deltas.loss } else { max_delta_rate };
    let win = through_f64(win);
    let lose = through_f64(lose);
    (win.saturating_add(delta_win), lose.saturating_sub(delta_lose))
}

/// After a match the winner's rating does not fall and the loser's does
/// not rise, and neither moves by more than `max_delta_rate`, for ratings
/// that `f64` holds exactly.
pub proof fn lemma_rate_moves_are_capped(win: u64, lose: u64, gain: u64, loss: u64, max_delta_rate: u64)
    requires
        win < f64_exact_limit(),
        lose < f64_exact_limit(),
    ensures
        ({
            let (new_win, new_lose) = spec_rate_calculation(win, lose, gain, loss, max_delta_rate);
            &&& win <= new_win <= win + max_delta_rate
            &&& lose - max_delta_rate <= new_lose <= lose
        }),
{
    lemma_through_f64_exact(win);
    lemma_through_f64_exact(lose);
}

/// The cap and the saturation keep the order of the formula's gains: when
/// the lower-rated player `a` beating `b` is given at least the gain that
/// `b` beating `a` is given, `a` gains at least as much as `b` would, for
/// ratings that `f64` holds exactly.
pub proof fn lemma_capped_gains_keep_order(
    a: u64,
    b: u64,
    underdog: RateDeltas,
    favorite: RateDeltas,
    max_delta_rate: u64,
)
    requires
        a < b,
        b < f64_exact_limit(),
        underdog.gain >= favorite.gain,
    ensures
        spec_rate_calculation(a, b, underdog.gain, underdog.loss, max_delta_rate).0 - a
            >= spec_rate_calculation(b, a, favorite.gain, favorite.loss, max_delta_rate).0 - b,
{
    lemma_through_f64_exact(a);
    lemma_through_f64_exact(b);
}

/// The loser's new rating is its own rating, carried through `f64`, less
/// its own loss capped at `max_delta_rate`, and never below zero; the
/// winner's is its rating plus its gain capped at `max_delta_rate`, never
/// above `u64::MAX`. Neither depends on the other player's delta, nor on
/// which player was rated higher.
pub proof fn lemma_each_player_moves_by_own_delta(
    win: u64,
    lose: u64,
    deltas: RateDeltas,
    other: RateDeltas,
    max_delta_rate: u64,
)
    ensures
        ({
            let (new_win, new_lose) = spec_rate_calculation(win, lose, deltas.gain, deltas.loss, max_delta_rate);
            let capped_loss: int = if deltas.loss < max_delta_rate { deltas.loss as int } else { max_delta_rate as int };
            let capped_gain: int = if deltas.gain < max_delta_rate { deltas.gain as int } else { max_delta_rate as int };
            let l = spec_through_f64(lose) as int;
            let w = spec_through_f64(win) as int;
            &&& new_lose as int == if l >= capped_loss { l - capped_loss } else { 0 }
            &&& new_win as int == if w + capped_gain <= u64::MAX { w + capped_gain } else { u64::MAX as int }
        }),
        spec_rate_calculation(win, lose, deltas.gain, deltas.loss, max_delta_rate).1
            == spec_rate_calculation(win, lose, other.gain, deltas.loss, max_delta_rate).1,
        spec_rate_calculation(win, lose, deltas.gain, deltas.loss, max_delta_rate).0
            == spec_rate_calculation(win, lose, deltas.gain, other.loss, max_delta_rate).0,
        win < f64_exact_limit() && lose < f64_exact_limit() ==> ({
            let (new_win, new_lose) = spec_rate_calculation(win, lose, deltas.gain, deltas.loss, max_delta_rate);
            let capped_loss: int = if deltas.loss < max_delta_rate { deltas.loss as int } else { max_delta_rate as int };
            let capped_gain: int = if deltas.gain < max_delta_rate { deltas.gain as int } else { max_delta_rate as int };
            &&& new_lose as int == if lose >= capped_loss { lose - capped_loss } else { 0 }
            &&& new_win as int == if win + capped_gain <= u64::MAX { win + capped_gain } else { u64::MAX as int }
        }),
{
    if win < f64_exact_limit() && lose < f64_exact_limit() {
        lemma_through_f64_exact(win);
        lemma_through_f64_exact(lose);
    }
}

} // verus!
