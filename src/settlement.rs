use vstd::prelude::*;

use crate::error::GivefiError;
use crate::identity::Identity;
use crate::laws::{step, Action};
use crate::state::{Giveaway, GiveawayEntry, PaymentType, Payout, ProgramState};

verus! {

/// The winner's share of a split pool, in percent.
pub const WINNER_SHARE_PERCENT: u128 = 33;

/// The organizer's share of a split pool, in percent.
pub const ORGANIZER_SHARE_PERCENT: u128 = 60;

/// The treasury's share of a split pool, in percent.
pub const TREASURY_SHARE_PERCENT: u128 = 7;

/// `percent` percent of `total`, rounded down.
pub open spec fn share_of(total: int, percent: int) -> int {
    total * percent / 100
}

/// A transfer of `amount`, left out where `amount` is zero.
pub open spec fn payout_if_nonzero(asset: PaymentType, recipient: Identity, amount: int) -> Seq<
    Payout,
> {
    if amount > 0 {
        seq![Payout { asset, recipient, amount: amount as u128 }]
    } else {
        seq![]
    }
}

/// The three transfers that split `total` of `asset`: winner, organizer,
/// treasury, each left out where zero.
pub open spec fn split_payouts(
    asset: PaymentType,
    total: int,
    winner: Identity,
    organizer: Identity,
    treasury: Identity,
) -> Seq<Payout> {
    payout_if_nonzero(asset, winner, share_of(total, WINNER_SHARE_PERCENT as int))
        + payout_if_nonzero(asset, organizer, share_of(total, ORGANIZER_SHARE_PERCENT as int))
        + payout_if_nonzero(asset, treasury, share_of(total, TREASURY_SHARE_PERCENT as int))
}

/// What a split of `total` pays out in all.
pub open spec fn split_sum(total: int) -> int {
    share_of(total, WINNER_SHARE_PERCENT as int) + share_of(total, ORGANIZER_SHARE_PERCENT as int)
        + share_of(total, TREASURY_SHARE_PERCENT as int)
}

impl Giveaway {
    /// Why a standard prize claim of `entry` by `user` is refused, checked in
    /// this order.
    pub open spec fn prize_error(self, entry: GiveawayEntry, user: Identity) -> Option<GivefiError> {
        if self.is_active {
            Some(GivefiError::GiveawayStillActive)
        } else if !self.is_successful {
            Some(GivefiError::GiveawayNotSuccessful)
        } else if self.winner is None {
            Some(GivefiError::NoWinnerDrawn)
        } else if self.prize_claimed || self.jackpot_claimed {
            Some(GivefiError::PrizeAlreadyClaimed)
        } else if self.winner != Some(entry.entry_number) {
            Some(GivefiError::NotWinner)
        } else if entry.user@ != user@ {
            Some(GivefiError::UnauthorizedClaim)
        } else if entry.claimed {
            Some(GivefiError::PrizeAlreadyClaimed)
        } else {
            None
        }
    }

    /// A standard claim pays both whole vaults to the winner.
    pub open spec fn prize_payouts(self, user: Identity) -> Seq<Payout> {
        payout_if_nonzero(PaymentType::Sol, user, self.sol_vault as int) + payout_if_nonzero(
            PaymentType::Give,
            user,
            self.give_vault as int,
        )
    }

    /// The state after a standard claim: claimed, vaults empty.
    pub open spec fn after_prize(self) -> Giveaway {
        Giveaway { prize_claimed: true, sol_vault: 0, give_vault: 0, ..self }
    }

    /// Why a split claim of `entry` by `user`, with `owner` named as the
    /// organizer, is refused, checked in this order.
    pub open spec fn jackpot_error(self, entry: GiveawayEntry, user: Identity, owner: Identity) -> Option<
        GivefiError,
    > {
        if owner@ != self.authority@ {
            Some(GivefiError::InvalidOwner)
        } else if self.is_active {
            Some(GivefiError::GiveawayStillActive)
        } else if !self.is_successful {
            Some(GivefiError::GiveawayNotSuccessful)
        } else if !self.jackpot_option_enabled {
            Some(GivefiError::JackpotNotEnabled)
        } else if self.winner is None {
            Some(GivefiError::NoWinnerDrawn)
        } else if self.prize_claimed || self.jackpot_claimed {
            Some(GivefiError::PrizeAlreadyClaimed)
        } else if self.winner != Some(entry.entry_number) {
            Some(GivefiError::NotWinner)
        } else if entry.user@ != user@ {
            Some(GivefiError::UnauthorizedClaim)
        } else if entry.claimed {
            Some(GivefiError::PrizeAlreadyClaimed)
        } else {
            None
        }
    }

    /// A split claim splits what each asset collected 33 / 60 / 7 between
    /// winner, organizer and treasury; native asset first, then token.
    pub open spec fn jackpot_payouts(self, user: Identity, treasury: Identity) -> Seq<Payout> {
        split_payouts(PaymentType::Sol, self.collected_sol(), user, self.authority, treasury)
            + split_payouts(PaymentType::Give, self.collected_give(), user, self.authority, treasury)
    }

    /// The state after a split claim: claimed, each vault less what its split
    /// paid out. The rounding remainder stays in the vault.
    pub open spec fn after_jackpot(self) -> Giveaway {
        Giveaway {
            jackpot_claimed: true,
            sol_vault: (self.sol_vault - split_sum(self.collected_sol())) as u128,
            give_vault: (self.give_vault - split_sum(self.collected_give())) as u128,
            ..self
        }
    }

    /// Why a refund of `entry` to `user` is refused, checked in this order.
    pub open spec fn refund_error(self, entry: GiveawayEntry, user: Identity) -> Option<GivefiError> {
        if self.is_active {
            Some(GivefiError::GiveawayStillActive)
        } else if self.is_successful {
            Some(GivefiError::GiveawayWasSuccessful)
        } else if entry.user@ != user@ {
            Some(GivefiError::UnauthorizedClaim)
        } else if entry.claimed {
            Some(GivefiError::PrizeAlreadyClaimed)
        } else if entry.payment_type == PaymentType::Give && self.entry_cost_give is None {
            Some(GivefiError::GiveTokensNotAccepted)
        } else if self.vault_of(entry.payment_type) < self.fee_of(entry.payment_type) {
            Some(GivefiError::InsufficientVaultFunds)
        } else {
            None
        }
    }

    /// The entry fee in `asset`.
    pub open spec fn fee_of(self, asset: PaymentType) -> int {
        match asset {
            PaymentType::Sol => self.entry_cost_sol as int,
            PaymentType::Give => self.give_cost(),
        }
    }

    /// The balance of the vault for `asset`.
    pub open spec fn vault_of(self, asset: PaymentType) -> int {
        match asset {
            PaymentType::Sol => self.sol_vault as int,
            PaymentType::Give => self.give_vault as int,
        }
    }

    /// The state after a refund in `asset`: that vault less one fee.
    pub open spec fn after_refund(self, asset: PaymentType) -> Giveaway {
        match asset {
            PaymentType::Sol => Giveaway {
                sol_vault: (self.sol_vault - self.entry_cost_sol) as u128,
                ..self
            },
            PaymentType::Give => Giveaway {
                give_vault: (self.give_vault - self.give_cost()) as u128,
                ..self
            },
        }
    }
}

/// The entry after a successful claim or refund.
pub open spec fn claimed_entry(entry: GiveawayEntry) -> GiveawayEntry {
    GiveawayEntry { claimed: true, ..entry }
}

/// `percent` percent of `total`, rounded down, without overflow.
pub fn share(total: u128, percent: u128) -> (r: u128)
    requires
        percent <= 100,
    ensures
        r == share_of(total as int, percent as int),
{
    let q = total / 100;
    let m = total % 100;
    proof {
        let t = total as int;
        let p = percent as int;
        let qi = q as int;
        let mi = m as int;
        assert(t == 100 * qi + mi && 0 <= mi < 100);
        assert(t * p == 100 * (qi * p) + mi * p) by (nonlinear_arith)
            requires
                t == 100 * qi + mi,
        ;
        assert((100 * (qi * p) + mi * p) / 100 == qi * p + (mi * p) / 100) by (nonlinear_arith)
            requires
                0 <= mi,
                0 <= p,
        ;
        assert(qi * p <= qi * 100) by (nonlinear_arith)
            requires
                0 <= qi,
                p <= 100,
        ;
        assert(mi * p <= 99 * 100) by (nonlinear_arith)
            requires
                0 <= mi < 100,
                0 <= p <= 100,
        ;
        assert((mi * p) / 100 <= mi) by (nonlinear_arith)
            requires
                0 <= mi,
                0 <= p <= 100,
        ;
    }
    q * percent + m * percent / 100
}

/// Appends a transfer of `amount` to `out` where `amount` is not zero.
fn push_payout(out: &mut Vec<Payout>, asset: PaymentType, recipient: Identity, amount: u128)
    ensures
        final(out)@ == old(out)@ + payout_if_nonzero(asset, recipient, amount as int),
{
    if amount > 0 {
        out.push(Payout { asset, recipient, amount });
        assert(final(out)@ =~= old(out)@ + payout_if_nonzero(asset, recipient, amount as int));
    } else {
        assert(final(out)@ =~= old(out)@ + payout_if_nonzero(asset, recipient, amount as int));
    }
}

/// The split of `total` never pays out more than `total`.
pub proof fn lemma_split_within(total: int)
    requires
        total >= 0,
    ensures
        0 <= split_sum(total) <= total,
        share_of(total, WINNER_SHARE_PERCENT as int) >= 0,
        share_of(total, ORGANIZER_SHARE_PERCENT as int) >= 0,
        share_of(total, TREASURY_SHARE_PERCENT as int) >= 0,
{
    assert(total * 33 / 100 + total * 60 / 100 + total * 7 / 100 <= total) by (nonlinear_arith)
        requires
            total >= 0,
    ;
    assert(total * 33 / 100 >= 0 && total * 60 / 100 >= 0 && total * 7 / 100 >= 0)
        by (nonlinear_arith)
        requires
            total >= 0,
    ;
}

/// Appends the split of `total` of `asset` to `out`; returns what it pays.
fn push_split(
    out: &mut Vec<Payout>,
    asset: PaymentType,
    total: u128,
    winner: Identity,
    organizer: Identity,
    treasury: Identity,
) -> (paid: u128)
    ensures
        final(out)@ == old(out)@ + split_payouts(asset, total as int, winner, organizer, treasury),
        paid == split_sum(total as int),
{
    proof {
        lemma_split_within(total as int);
    }
    let w = share(total, WINNER_SHARE_PERCENT);
    let o = share(total, ORGANIZER_SHARE_PERCENT);
    let t = share(total, TREASURY_SHARE_PERCENT);
    push_payout(out, asset, winner, w);
    push_payout(out, asset, organizer, o);
    push_payout(out, asset, treasury, t);
    assert(final(out)@ =~= old(out)@ + split_payouts(
        asset,
        total as int,
        winner,
        organizer,
        treasury,
    ));
    w + o + t
}

/// `a * b` for two `u64` values, which always fits in a `u128`.
fn wide_mul(a: u64, b: u64) -> (r: u128)
    ensures
        r == a as int * b as int,
{
    proof {
        assert(a as int * b as int <= 0xffff_ffff_ffff_ffff * 0xffff_ffff_ffff_ffff)
            by (nonlinear_arith)
            requires
                0 <= a <= 0xffff_ffff_ffff_ffff,
                0 <= b <= 0xffff_ffff_ffff_ffff,
        ;
    }
    (a as u128) * (b as u128)
}

/// The standard claim: the winning entry's owner takes both whole vaults.
/// Marks the prize claimed and the entry claimed; the entry's record can then
/// be closed.
pub fn claim_prize(giveaway: &mut Giveaway, entry: &mut GiveawayEntry, user: &Identity) -> (r:
    Result<Vec<Payout>, GivefiError>)
    requires
        old(giveaway).wf(),
    ensures
        final(giveaway).wf(),
        *final(giveaway) == step(*old(giveaway), (Action::ClaimPrize { entry: *old(entry), user: *user })),
        match old(giveaway).prize_error(*old(entry), *user) {
            Some(e) => {
                &&& r == Err::<Vec<Payout>, GivefiError>(e)
                &&& *final(giveaway) == *old(giveaway)
                &&& *final(entry) == *old(entry)
            },
            None => {
                &&& r is Ok
                &&& r->Ok_0@ == old(giveaway).prize_payouts(*user)
                &&& *final(giveaway) == old(giveaway).after_prize()
                &&& *final(entry) == claimed_entry(*old(entry))
            },
        },
{
    if giveaway.is_active {
        return Err(GivefiError::GiveawayStillActive);
    }
    if !giveaway.is_successful {
        return Err(GivefiError::GiveawayNotSuccessful);
    }
    let winner = match giveaway.winner {
        Some(w) => w,
        None => {
            return Err(GivefiError::NoWinnerDrawn);
        },
    };
    if giveaway.prize_claimed || giveaway.jackpot_claimed {
        return Err(GivefiError::PrizeAlreadyClaimed);
    }
    if entry.entry_number != winner {
        return Err(GivefiError::NotWinner);
    }
    if !entry.user.same_as(user) {
        return Err(GivefiError::UnauthorizedClaim);
    }
    if entry.claimed {
        return Err(GivefiError::PrizeAlreadyClaimed);
    }
    let mut payouts: Vec<Payout> = Vec::new();
    push_payout(&mut payouts, PaymentType::Sol, *user, giveaway.sol_vault);
    push_payout(&mut payouts, PaymentType::Give, *user, giveaway.give_vault);
    assert(payouts@ =~= old(giveaway).prize_payouts(*user));
    giveaway.sol_vault = 0;
    giveaway.give_vault = 0;
    giveaway.prize_claimed = true;
    entry.claimed = true;
    Ok(payouts)
}

/// The split claim, where the giveaway offers it: each asset's collected
/// pool goes 33% to the winner, 60% to the organizer and 7% to the treasury,
/// rounded down. `owner` must be the organizer.
pub fn claim_jackpot(
    giveaway: &mut Giveaway,
    entry: &mut GiveawayEntry,
    program_state: &ProgramState,
    user: &Identity,
    owner: &Identity,
) -> (r: Result<Vec<Payout>, GivefiError>)
    requires
        old(giveaway).wf(),
    ensures
        final(giveaway).wf(),
        *final(giveaway) == step(*old(giveaway), (Action::ClaimJackpot { entry: *old(entry), user: *user, owner: *owner })),
        match old(giveaway).jackpot_error(*old(entry), *user, *owner) {
            Some(e) => {
                &&& r == Err::<Vec<Payout>, GivefiError>(e)
                &&& *final(giveaway) == *old(giveaway)
                &&& *final(entry) == *old(entry)
            },
            None => {
                &&& r is Ok
                &&& r->Ok_0@ == old(giveaway).jackpot_payouts(
                    *user,
                    program_state.treasury_wallet,
                )
                &&& *final(giveaway) == old(giveaway).after_jackpot()
                &&& *final(entry) == claimed_entry(*old(entry))
            },
        },
{
    if !owner.same_as(&giveaway.authority) {
        return Err(GivefiError::InvalidOwner);
    }
    if giveaway.is_active {
        return Err(GivefiError::GiveawayStillActive);
    }
    if !giveaway.is_successful {
        return Err(GivefiError::GiveawayNotSuccessful);
    }
    if !giveaway.jackpot_option_enabled {
        return Err(GivefiError::JackpotNotEnabled);
    }
    let winner = match giveaway.winner {
        Some(w) => w,
        None => {
            return Err(GivefiError::NoWinnerDrawn);
        },
    };
    if giveaway.prize_claimed || giveaway.jackpot_claimed {
        return Err(GivefiError::PrizeAlreadyClaimed);
    }
    if entry.entry_number != winner {
        return Err(GivefiError::NotWinner);
    }
    if !entry.user.same_as(user) {
        return Err(GivefiError::UnauthorizedClaim);
    }
    if entry.claimed {
        return Err(GivefiError::PrizeAlreadyClaimed);
    }
    let total_sol = wide_mul(giveaway.sol_entries, giveaway.entry_cost_sol);
    let give_cost: u64 = match giveaway.entry_cost_give {
        Some(c) => c,
        None => 0,
    };
    let total_give = wide_mul(giveaway.give_entries, give_cost);
    proof {
        lemma_split_within(total_sol as int);
        lemma_split_within(total_give as int);
        assert(total_sol as int == old(giveaway).collected_sol());
        assert(old(giveaway).give_cost() == give_cost as int);
        assert(total_give as int == old(giveaway).collected_give());
    }
    let organizer = giveaway.authority;
    let treasury = program_state.treasury_wallet;
    let mut payouts: Vec<Payout> = Vec::new();
    let paid_sol = push_split(&mut payouts, PaymentType::Sol, total_sol, *user, organizer, treasury);
    let paid_give = push_split(
        &mut payouts,
        PaymentType::Give,
        total_give,
        *user,
        organizer,
        treasury,
    );
    assert(payouts@ =~= old(giveaway).jackpot_payouts(*user, treasury));
    giveaway.sol_vault = giveaway.sol_vault - paid_sol;
    giveaway.give_vault = giveaway.give_vault - paid_give;
    giveaway.jackpot_claimed = true;
    entry.claimed = true;
    Ok(payouts)
}

/// The refund of a failed giveaway: the entry's owner gets back the exact fee
/// in the asset the entry paid with, out of the matching vault.
pub fn claim_refund(giveaway: &mut Giveaway, entry: &mut GiveawayEntry, user: &Identity) -> (r:
    Result<Payout, GivefiError>)
    requires
        old(giveaway).wf(),
    ensures
        final(giveaway).wf(),
        *final(giveaway) == step(*old(giveaway), (Action::ClaimRefund { entry: *old(entry), user: *user })),
        match old(giveaway).refund_error(*old(entry), *user) {
            Some(e) => {
                &&& r == Err::<Payout, GivefiError>(e)
                &&& *final(giveaway) == *old(giveaway)
                &&& *final(entry) == *old(entry)
            },
            None => {
                &&& r == Ok::<Payout, GivefiError>(
                    Payout {
                        asset: old(entry).payment_type,
                        recipient: old(entry).user,
                        amount: old(giveaway).fee_of(old(entry).payment_type) as u128,
                    },
                )
                &&& *final(giveaway) == old(giveaway).after_refund(old(entry).payment_type)
                &&& *final(entry) == claimed_entry(*old(entry))
            },
        },
{
    if giveaway.is_active {
        return Err(GivefiError::GiveawayStillActive);
    }
    if giveaway.is_successful {
        return Err(GivefiError::GiveawayWasSuccessful);
    }
    if !entry.user.same_as(user) {
        return Err(GivefiError::UnauthorizedClaim);
    }
    if entry.claimed {
        return Err(GivefiError::PrizeAlreadyClaimed);
    }
    let fee: u64 = match entry.payment_type {
        PaymentType::Sol => giveaway.entry_cost_sol,
        PaymentType::Give => match giveaway.entry_cost_give {
            Some(c) => c,
            None => {
                return Err(GivefiError::GiveTokensNotAccepted);
            },
        },
    };
    match entry.payment_type {
        PaymentType::Sol => {
            if giveaway.sol_vault < fee as u128 {
                return Err(GivefiError::InsufficientVaultFunds);
            }
            giveaway.sol_vault = giveaway.sol_vault - fee as u128;
        },
        PaymentType::Give => {
            if giveaway.give_vault < fee as u128 {
                return Err(GivefiError::InsufficientVaultFunds);
            }
            giveaway.give_vault = giveaway.give_vault - fee as u128;
        },
    }
    entry.claimed = true;
    Ok(Payout { asset: entry.payment_type, recipient: entry.user, amount: fee as u128 })
}

} // verus!
