//! What the handlers of the service decide: the reply to a read, the
//! rating a new player starts with, and how a reported match is settled.
use vstd::prelude::*;
use crate::bll::{
    f64_exact_limit, lemma_each_player_moves_by_own_delta, lemma_rate_moves_are_capped,
    rate_calculation, spec_rate_calculation, RateDeltas,
};
use crate::entity::{RateInfo, RateInfoList, RateInfoView};
use crate::infrastructure::rate_update_allowed;

verus! {

/// The rate a new player starts with.
pub const DEFAULT_RATE: u64 = 0;

/// The reply to a read of a player's rating: `200` with the rating where
/// it was found, `204` with the empty rating where it was not.
pub fn get_rate_reply(found: Option<RateInfo>) -> (reply: (u16, RateInfo))
    ensures
        match found {
            Some(info) => reply.0 == 200 && reply.1@ == info@,
            None => reply.0 == 204 && reply.1@ == RateInfoView::empty(),
        },
{
    match found {
        Some(info) => (200, info),
        None => (204, RateInfo::default()),
    }
}

/// The rating stored for a player who is added: as sent, but with the
/// rate set to [`DEFAULT_RATE`].
pub fn new_player_rate_info(info: RateInfo) -> (stored: RateInfo)
    ensures
        stored@ == info@.with_rate(DEFAULT_RATE),
{
    let mut info = info;
    info.rate = DEFAULT_RATE;
    info
}

/// The winner of a reported match, read from the first two entries: the
/// first if it is marked the winner, else the second if it is, else none
/// (a missing mark counts as "not the winner").
pub open spec fn spec_match_winner(list: Seq<RateInfoView>) -> Option<int> {
    if list[0].is_winner == Some(true) {
        Some(0)
    } else if list[1].is_winner == Some(true) {
        Some(1)
    } else {
        None
    }
}

/// Which of the first two entries won the match; `None` when neither is
/// marked the winner, and the request is then refused as malformed.
pub fn match_winner(list: &RateInfoList) -> (winner: Option<usize>)
    requires
        list@.len() >= 2,
    ensures
        match winner {
            Some(w) => spec_match_winner(list@) == Some(w as int),
            None => spec_match_winner(list@) is None,
        },
{
    if list.index(0).is_winner == Some(true) {
        Some(0)
    } else if list.index(1).is_winner == Some(true) {
        Some(1)
    } else {
        None
    }
}

/// The entries of a match after it is settled: the winner's and the
/// loser's rates replaced by the new ratings, all else kept.
pub open spec fn spec_settle_match(
    list: Seq<RateInfoView>,
    winner: int,
    gain: u64,
    loss: u64,
    max_delta_rate: u64,
) -> Seq<RateInfoView> {
    let loser = 1 - winner;
    let (new_win, new_lose) = spec_rate_calculation(
        list[winner].rate,
        list[loser].rate,
        gain,
        loss,
        max_delta_rate,
    );
    list.update(winner, list[winner].with_rate(new_win)).update(loser, list[loser].with_rate(new_lose))
}

/// Settles a match that the entry `winner` (0 or 1) won against the other
/// of the first two, given what the formula of the match's class gave.
pub fn settle_match(list: &mut RateInfoList, winner: usize, deltas: RateDeltas, max_delta_rate: u64)
    requires
        old(list)@.len() >= 2,
        winner < 2,
    ensures
        final(list)@ == spec_settle_match(old(list)@, winner as int, deltas.gain, deltas.loss, max_delta_rate),
{
    let loser = 1 - winner;
    let (win, lose) = rate_calculation(
        list.index(winner).rate,
        list.index(loser).rate,
        deltas,
        max_delta_rate,
    );
    list.index_mut(winner).rate = win;
    list.index_mut(loser).rate = lose;
}

/// A settled match passes the check that guards every update of a rate:
/// neither player's rate moves by more than `max_delta_rate`, for ratings
/// that `f64` holds exactly.
pub proof fn lemma_settled_rates_pass_update_check(
    list: Seq<RateInfoView>,
    winner: int,
    gain: u64,
    loss: u64,
    max_delta_rate: u64,
)
    requires
        list.len() >= 2,
        0 <= winner < 2,
        list[0].rate < f64_exact_limit(),
        list[1].rate < f64_exact_limit(),
    ensures
        ({
            let settled = spec_settle_match(list, winner, gain, loss, max_delta_rate);
            &&& rate_update_allowed(list[0].rate, settled[0].rate, max_delta_rate)
            &&& rate_update_allowed(list[1].rate, settled[1].rate, max_delta_rate)
        }),
{
    lemma_rate_moves_are_capped(list[winner].rate, list[1 - winner].rate, gain, loss, max_delta_rate);
}

/// The winner is the first entry when it is marked the winner; otherwise
/// the second when that one is marked, whatever the first's mark (absent or
/// `false`); otherwise there is none.
pub proof fn lemma_winner_follows_marks(list: Seq<RateInfoView>)
    requires
        list.len() >= 2,
    ensures
        list[0].is_winner == Some(true) ==> spec_match_winner(list) == Some(0int),
        list[0].is_winner != Some(true) && list[1].is_winner == Some(true)
            ==> spec_match_winner(list) == Some(1int),
        list[0].is_winner != Some(true) && list[1].is_winner != Some(true)
            ==> spec_match_winner(list) is None,
{
}

/// Settling a match writes both players' rates: entry `winner` gets its
/// rate plus its capped gain (never above `u64::MAX`) and entry `1 - winner` its rate less its
/// capped loss (never below zero), for ratings that `f64` holds exactly;
/// names, ids, marks and all other entries stay as they were. In
/// particular the loser's rate drops whenever it, the loss and the cap are
/// positive.
pub proof fn lemma_settle_writes_both_rates(
    list: Seq<RateInfoView>,
    winner: int,
    gain: u64,
    loss: u64,
    max_delta_rate: u64,
)
    requires
        list.len() >= 2,
        0 <= winner < 2,
        list[0].rate < f64_exact_limit(),
        list[1].rate < f64_exact_limit(),
    ensures
        ({
            let settled = spec_settle_match(list, winner, gain, loss, max_delta_rate);
            let loser = 1 - winner;
            let capped_gain: int = if gain < max_delta_rate { gain as int } else { max_delta_rate as int };
            let capped_loss: int = if loss < max_delta_rate { loss as int } else { max_delta_rate as int };
            &&& settled.len() == list.len()
            &&& settled[winner].rate as int == if list[winner].rate + capped_gain <= u64::MAX {
                list[winner].rate + capped_gain
            } else {
                u64::MAX as int
            }
            &&& settled[loser].rate as int == if list[loser].rate >= capped_loss {
                list[loser].rate - capped_loss
            } else {
                0
            }
            &&& (list[loser].rate > 0 && loss > 0 && max_delta_rate > 0 ==> settled[loser].rate < list[loser].rate)
            &&& forall|i: int| 0 <= i < list.len() ==> {
                &&& #[trigger] settled[i].user_id == list[i].user_id
                &&& settled[i].user_name == list[i].user_name
                &&& settled[i].is_winner == list[i].is_winner
            }
            &&& forall|i: int| 2 <= i < list.len() ==> #[trigger] settled[i] == list[i]
        }),
{
    let loser = 1 - winner;
    lemma_each_player_moves_by_own_delta(
        list[winner].rate,
        list[loser].rate,
        RateDeltas { gain, loss },
        RateDeltas { gain, loss },
        max_delta_rate,
    );
}

} // verus!
