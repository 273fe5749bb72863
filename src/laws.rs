use vstd::prelude::*;

use crate::identity::Identity;
use crate::randomness::RandomnessSource;
use crate::settlement::lemma_split_within;
use crate::state::{Giveaway, GiveawayEntry, PaymentType};

verus! {

/// One operation on a giveaway with its inputs, as the caller would make it.
pub enum Action {
    EnterSol { user: Identity, now: i64 },
    EnterGive { user: Identity, now: i64 },
    EndEarly { caller: Identity, now: i64 },
    RequestRandomness { now: i64 },
    Draw { source: RandomnessSource },
    ClaimPrize { entry: GiveawayEntry, user: Identity },
    ClaimJackpot { entry: GiveawayEntry, user: Identity, owner: Identity },
    ClaimRefund { entry: GiveawayEntry, user: Identity },
}

impl Action {
    /// Whether the action pays out of a vault.
    pub open spec fn is_claim(self) -> bool {
        self is ClaimPrize || self is ClaimJackpot || self is ClaimRefund
    }

    /// Whether the action is a draw, by any of the three tiers.
    pub open spec fn is_draw(self) -> bool {
        self is Draw
    }
}

/// The giveaway after `a`: the operation's new state where it is accepted,
/// the state unchanged where it is refused. The operations' own contracts
/// state exactly these outcomes.
pub open spec fn step(g: Giveaway, a: Action) -> Giveaway {
    match a {
        Action::EnterSol { user, now } => if g.enter_error(PaymentType::Sol, now) is None {
            g.entered(PaymentType::Sol)
        } else {
            g
        },
        Action::EnterGive { user, now } => if g.enter_error(PaymentType::Give, now) is None {
            g.entered(PaymentType::Give)
        } else {
            g
        },
        Action::EndEarly { caller, now } => if g.end_early_error(caller, now) is None {
            Giveaway { end_timestamp: now, ..g }
        } else {
            g
        },
        Action::RequestRandomness { now } => if g.request_error(now) is None {
            Giveaway { randomness_requested: true, ..g }
        } else {
            g
        },
        Action::Draw { source } => if g.draw_from_error(source) is None {
            g.drawn_from(source)
        } else {
            g
        },
        Action::ClaimPrize { entry, user } => if g.prize_error(entry, user) is None {
            g.after_prize()
        } else {
            g
        },
        Action::ClaimJackpot { entry, user, owner } => if g.jackpot_error(entry, user, owner) is None {
            g.after_jackpot()
        } else {
            g
        },
        Action::ClaimRefund { entry, user } => if g.refund_error(entry, user) is None {
            g.after_refund(entry.payment_type)
        } else {
            g
        },
    }
}

/// The giveaway after the actions `acts`, first to last.
pub open spec fn run(g: Giveaway, acts: Seq<Action>) -> Giveaway
    decreases acts.len(),
{
    if acts.len() == 0 {
        g
    } else {
        run(step(g, acts[0]), acts.drop_first())
    }
}

/// An accepted entry keeps the invariant.
proof fn lemma_entered_keeps_wf(g: Giveaway, asset: PaymentType, now: i64)
    requires
        g.wf(),
        g.enter_error(asset, now) is None,
    ensures
        g.entered(asset).wf(),
        g.funds_balanced() ==> g.entered(asset).funds_balanced(),
{
    let c = g.fee_of(asset);
    let k: int = match asset {
        PaymentType::Sol => g.sol_entries as int,
        PaymentType::Give => g.give_entries as int,
    };
    assert(c * (k + 1) == c * k + c) by (nonlinear_arith);
    assert(c * (k + 1) <= 0xffff_ffff_ffff_ffff * 0xffff_ffff_ffff_ffff) by (nonlinear_arith)
        requires
            0 <= c <= 0xffff_ffff_ffff_ffff,
            0 <= k + 1 <= 0xffff_ffff_ffff_ffff,
    ;
}

/// A draw by any tier keeps the invariant.
proof fn lemma_draw_keeps_wf(g: Giveaway, a: Action)
    requires
        g.wf(),
        a.is_draw(),
    ensures
        step(g, a).wf(),
{
    if let Action::Draw { source } = a {
        if g.draw_from_error(source) is None {
            assert(g.drawn_from(source).wf());
        }
    }
}

/// A claim of any kind keeps the invariant.
proof fn lemma_claim_keeps_wf(g: Giveaway, a: Action)
    requires
        g.wf(),
        a.is_claim(),
    ensures
        step(g, a).wf(),
{
    match a {
        Action::ClaimPrize { entry, user } => {
            if g.prize_error(entry, user) is None {
                assert(g.after_prize().wf());
            }
        },
        Action::ClaimJackpot { entry, user, owner } => {
            if g.jackpot_error(entry, user, owner) is None {
                lemma_split_within(g.collected_sol());
                lemma_split_within(g.collected_give());
                assert(g.after_jackpot().wf());
            }
        },
        Action::ClaimRefund { entry, user } => {
            if g.refund_error(entry, user) is None {
                assert(g.after_refund(entry.payment_type).wf());
            }
        },
        _ => {},
    }
}

/// Every operation keeps the giveaway's invariant.
pub proof fn lemma_step_keeps_wf(g: Giveaway, a: Action)
    requires
        g.wf(),
    ensures
        step(g, a).wf(),
{
    match a {
        Action::EnterSol { user, now } => {
            if g.enter_error(PaymentType::Sol, now) is None {
                lemma_entered_keeps_wf(g, PaymentType::Sol, now);
            }
        },
        Action::EnterGive { user, now } => {
            if g.enter_error(PaymentType::Give, now) is None {
                lemma_entered_keeps_wf(g, PaymentType::Give, now);
            }
        },
        Action::EndEarly { caller, now } => {},
        Action::RequestRandomness { now } => {},
        _ => {
            if a.is_draw() {
                lemma_draw_keeps_wf(g, a);
            } else {
                lemma_claim_keeps_wf(g, a);
            }
        },
    }
}

/// Every state reached from a well-formed one is well-formed.
pub proof fn lemma_run_keeps_wf(g: Giveaway, acts: Seq<Action>)
    requires
        g.wf(),
    ensures
        run(g, acts).wf(),
    decreases acts.len(),
{
    if acts.len() > 0 {
        lemma_step_keeps_wf(g, acts[0]);
        lemma_run_keeps_wf(step(g, acts[0]), acts.drop_first());
    }
}

/// Fund conservation: until something is claimed, each vault holds exactly
/// the fee of its asset times the number of entries paid in it, whatever
/// entries, closes and draws come in between.
pub proof fn lemma_fund_conservation(g: Giveaway, acts: Seq<Action>)
    requires
        g.wf(),
        g.funds_balanced(),
        forall|i: int| 0 <= i < acts.len() ==> !(#[trigger] acts[i]).is_claim(),
    ensures
        run(g, acts).funds_balanced(),
        run(g, acts).sol_vault == g.entry_cost_sol as int * run(g, acts).sol_entries as int,
        run(g, acts).give_vault == run(g, acts).give_cost() * run(g, acts).give_entries as int,
    decreases acts.len(),
{
    if acts.len() > 0 {
        let a = acts[0];
        assert(!a.is_claim());
        lemma_step_keeps_wf(g, a);
        match a {
            Action::EnterSol { user, now } => {
                if g.enter_error(PaymentType::Sol, now) is None {
                    lemma_entered_keeps_wf(g, PaymentType::Sol, now);
                }
            },
            Action::EnterGive { user, now } => {
                if g.enter_error(PaymentType::Give, now) is None {
                    lemma_entered_keeps_wf(g, PaymentType::Give, now);
                }
            },
            _ => {},
        }
        let rest = acts.drop_first();
        assert forall|i: int| 0 <= i < rest.len() implies !(#[trigger] rest[i]).is_claim() by {
            assert(rest[i] == acts[i + 1]);
        }
        lemma_fund_conservation(step(g, a), rest);
    }
}

/// At most one winner: once a winner is set, no operation changes or clears
/// it.
pub proof fn lemma_winner_fixed(g: Giveaway, acts: Seq<Action>)
    requires
        g.winner is Some,
    ensures
        run(g, acts).winner == g.winner,
    decreases acts.len(),
{
    if acts.len() > 0 {
        assert(step(g, acts[0]).winner == g.winner);
        lemma_winner_fixed(step(g, acts[0]), acts.drop_first());
    }
}

/// A winner appears only in the one transition that takes an open giveaway
/// to its terminal state, and only through a draw.
pub proof fn lemma_winner_set_on_conclusion(g: Giveaway, a: Action)
    requires
        g.winner is None,
        step(g, a).winner is Some,
    ensures
        a.is_draw(),
        g.is_active,
        !step(g, a).is_active,
        step(g, a).is_successful,
{
}

/// Claim exclusivity: in every state reached from a well-formed one, the
/// prize and the jackpot are never both claimed, and a claim once made stays.
pub proof fn lemma_claims_exclusive(g: Giveaway, acts: Seq<Action>)
    requires
        g.wf(),
    ensures
        !(run(g, acts).prize_claimed && run(g, acts).jackpot_claimed),
        g.prize_claimed ==> run(g, acts).prize_claimed,
        g.jackpot_claimed ==> run(g, acts).jackpot_claimed,
    decreases acts.len(),
{
    lemma_run_keeps_wf(g, acts);
    if acts.len() > 0 {
        lemma_step_keeps_wf(g, acts[0]);
        lemma_claims_exclusive(step(g, acts[0]), acts.drop_first());
    }
}

/// Once either the prize or the jackpot is claimed, both claim paths are
/// refused, whatever entry, caller and owner are presented.
pub proof fn lemma_claimed_blocks_claims(
    g: Giveaway,
    entry: GiveawayEntry,
    user: Identity,
    owner: Identity,
)
    requires
        g.prize_claimed || g.jackpot_claimed,
    ensures
        g.prize_error(entry, user) is Some,
        g.jackpot_error(entry, user, owner) is Some,
{
}

/// Draw range: each of the three tiers, on a well-formed giveaway with no
/// winner, selects an index below the number of entries.
pub proof fn lemma_draw_in_range(g: Giveaway, a: Action)
    requires
        g.wf(),
        g.winner is None,
        a.is_draw(),
    ensures
        step(g, a).winner matches Some(w) ==> w < g.current_entries,
{
}

/// In every state reached from a well-formed one, a set winner is a sequence
/// number that some entry holds.
pub proof fn lemma_winner_in_range(g: Giveaway, acts: Seq<Action>)
    requires
        g.wf(),
    ensures
        run(g, acts).winner matches Some(w) ==> w < run(g, acts).current_entries,
{
    lemma_run_keeps_wf(g, acts);
}

/// Refunds only on failure, prizes only on success: a refund is accepted
/// only on a concluded giveaway that failed, a prize or jackpot claim only on
/// one that succeeded.
pub proof fn lemma_refund_only_on_failure(
    g: Giveaway,
    entry: GiveawayEntry,
    user: Identity,
    owner: Identity,
)
    ensures
        g.refund_error(entry, user) is None ==> !g.is_active && !g.is_successful,
        g.prize_error(entry, user) is None ==> !g.is_active && g.is_successful,
        g.jackpot_error(entry, user, owner) is None ==> !g.is_active && g.is_successful,
{
}

} // verus!
