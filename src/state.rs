use vstd::prelude::*;

use crate::identity::Identity;

verus! {

/// Longest prize description accepted, in UTF-8 bytes.
pub const MAX_DESCRIPTION_LEN: usize = 100;

/// Seconds after the deadline before the block-hash fallback may draw.
pub const FALLBACK_GRACE_SECONDS: i64 = 3600;

/// The asset an entry was paid in: the native asset or the fungible token.
#[derive(Clone, Copy, Debug, PartialEq, Eq, Structural)]
pub enum PaymentType {
    Sol,
    Give,
}

/// The protocol-wide record: who runs it, where the treasury share goes, and
/// how many giveaways were created.
#[derive(Clone, Copy, Debug)]
pub struct ProgramState {
    pub authority: Identity,
    pub treasury_wallet: Identity,
    pub total_giveaways: u64,
}

/// One giveaway: its configuration, its running state and the balances of its
/// two escrow vaults.
#[derive(Debug)]
pub struct Giveaway {
    pub id: u64,
    /// The organizer.
    pub authority: Identity,
    pub entry_cost_sol: u64,
    /// The token fee, where the giveaway accepts the token at all.
    pub entry_cost_give: Option<u64>,
    pub max_entries: u64,
    pub min_participants: u64,
    pub current_entries: u64,
    pub sol_entries: u64,
    pub give_entries: u64,
    pub prize_description: String,
    pub end_timestamp: i64,
    pub jackpot_option_enabled: bool,
    pub early_end_enabled: bool,
    pub is_active: bool,
    pub is_successful: bool,
    /// The sequence number of the winning entry, once drawn.
    pub winner: Option<u64>,
    pub prize_claimed: bool,
    pub jackpot_claimed: bool,
    pub randomness_requested: bool,
    /// Balance of the native-asset vault.
    pub sol_vault: u128,
    /// Balance of the token vault.
    pub give_vault: u128,
}

/// One paid ticket, addressed by its giveaway and its sequence number.
#[derive(Clone, Copy, Debug)]
pub struct GiveawayEntry {
    pub giveaway_id: u64,
    pub user: Identity,
    pub entry_number: u64,
    pub timestamp: i64,
    pub payment_type: PaymentType,
    pub claimed: bool,
}

/// A transfer out of a vault that the caller is to carry out.
#[derive(Clone, Copy, Debug)]
pub struct Payout {
    pub asset: PaymentType,
    pub recipient: Identity,
    pub amount: u128,
}

impl Giveaway {
    /// The token fee, or zero where the token is not accepted.
    pub open spec fn give_cost(self) -> int {
        match self.entry_cost_give {
            Some(c) => c as int,
            None => 0,
        }
    }

    /// What the entries paid into the native-asset vault.
    pub open spec fn collected_sol(self) -> int {
        self.entry_cost_sol as int * self.sol_entries as int
    }

    /// What the entries paid into the token vault.
    pub open spec fn collected_give(self) -> int {
        self.give_cost() * self.give_entries as int
    }

    /// Each vault holds exactly what the entries paid into it.
    pub open spec fn funds_balanced(self) -> bool {
        &&& self.sol_vault as int == self.collected_sol()
        &&& self.give_vault as int == self.collected_give()
    }

    /// The state is open to entries at time `now`.
    pub open spec fn is_open(self, now: i64) -> bool {
        self.is_active && now < self.end_timestamp
    }

    /// The invariant that creation establishes and every operation keeps.
    pub open spec fn wf(self) -> bool {
        &&& self.sol_entries + self.give_entries == self.current_entries
        &&& self.current_entries <= self.max_entries
        &&& 0 < self.min_participants <= self.max_entries
        &&& self.entry_cost_sol > 0
        &&& self.give_entries > 0 ==> self.entry_cost_give is Some
        &&& self.sol_vault <= self.collected_sol()
        &&& self.give_vault <= self.collected_give()
        &&& self.is_active ==> {
            &&& !self.is_successful
            &&& self.winner is None
            &&& !self.prize_claimed
            &&& !self.jackpot_claimed
            &&& self.funds_balanced()
        }
        &&& self.is_successful ==> self.winner is Some
        &&& (self.winner matches Some(w) ==> w < self.current_entries && self.is_successful)
        &&& (self.prize_claimed || self.jackpot_claimed) ==> self.is_successful
        &&& !(self.prize_claimed && self.jackpot_claimed)
        &&& (self.is_successful && !self.prize_claimed && !self.jackpot_claimed)
            ==> self.funds_balanced()
        &&& self.randomness_requested ==> self.current_entries >= self.min_participants
    }
}

impl Giveaway {
    /// Whether the state satisfies the invariant; for records read back from
    /// storage before any operation is applied to them.
    pub fn is_well_formed(&self) -> (r: bool)
        ensures
            r == self.wf(),
    {
        let entries = self.sol_entries as u128 + self.give_entries as u128;
        if entries != self.current_entries as u128 {
            return false;
        }
        if !(self.current_entries <= self.max_entries && 0 < self.min_participants
            && self.min_participants <= self.max_entries && self.entry_cost_sol > 0) {
            return false;
        }
        let give_cost: u64 = match self.entry_cost_give {
            Some(c) => c,
            None => {
                if self.give_entries > 0 {
                    return false;
                }
                0
            },
        };
        proof {
            let a = self.entry_cost_sol as int;
            let b = self.sol_entries as int;
            let c = give_cost as int;
            let d = self.give_entries as int;
            assert(a * b <= 0xffff_ffff_ffff_ffff * 0xffff_ffff_ffff_ffff) by (nonlinear_arith)
                requires
                    0 <= a <= 0xffff_ffff_ffff_ffff,
                    0 <= b <= 0xffff_ffff_ffff_ffff,
            ;
            assert(c * d <= 0xffff_ffff_ffff_ffff * 0xffff_ffff_ffff_ffff) by (nonlinear_arith)
                requires
                    0 <= c <= 0xffff_ffff_ffff_ffff,
                    0 <= d <= 0xffff_ffff_ffff_ffff,
            ;
            assert(self.give_cost() == c);
        }
        let collected_sol = (self.entry_cost_sol as u128) * (self.sol_entries as u128);
        let collected_give = (give_cost as u128) * (self.give_entries as u128);
        if self.sol_vault > collected_sol || self.give_vault > collected_give {
            return false;
        }
        let balanced = self.sol_vault == collected_sol && self.give_vault == collected_give;
        let unclaimed = !self.prize_claimed && !self.jackpot_claimed;
        if self.is_active && !(!self.is_successful && self.winner.is_none() && unclaimed
            && balanced) {
            return false;
        }
        if self.is_successful && self.winner.is_none() {
            return false;
        }
        if let Some(w) = self.winner {
            if !(w < self.current_entries && self.is_successful) {
                return false;
            }
        }
        if (self.prize_claimed || self.jackpot_claimed) && !self.is_successful {
            return false;
        }
        if self.prize_claimed && self.jackpot_claimed {
            return false;
        }
        if self.is_successful && unclaimed && !balanced {
            return false;
        }
        !(self.randomness_requested && self.current_entries < self.min_participants)
    }
}

impl Clone for Giveaway {
    fn clone(&self) -> (r: Self)
        ensures
            r == *self,
    {
        Giveaway {
            id: self.id,
            authority: self.authority,
            entry_cost_sol: self.entry_cost_sol,
            entry_cost_give: self.entry_cost_give,
            max_entries: self.max_entries,
            min_participants: self.min_participants,
            current_entries: self.current_entries,
            sol_entries: self.sol_entries,
            give_entries: self.give_entries,
            prize_description: self.prize_description.clone(),
            end_timestamp: self.end_timestamp,
            jackpot_option_enabled: self.jackpot_option_enabled,
            early_end_enabled: self.early_end_enabled,
            is_active: self.is_active,
            is_successful: self.is_successful,
            winner: self.winner,
            prize_claimed: self.prize_claimed,
            jackpot_claimed: self.jackpot_claimed,
            randomness_requested: self.randomness_requested,
            sol_vault: self.sol_vault,
            give_vault: self.give_vault,
        }
    }
}

} // verus!
