use vstd::prelude::*;
use vstd::utf8::encode_utf8;

use crate::error::GivefiError;
use crate::identity::Identity;
use crate::laws::{step, Action};
use crate::state::{Giveaway, GiveawayEntry, PaymentType, ProgramState, MAX_DESCRIPTION_LEN};

verus! {

/// Why a giveaway with this configuration cannot be created at time `now`,
/// checked in this order; `None` where it can.
pub open spec fn create_error(
    entry_cost_sol: u64,
    max_entries: u64,
    min_participants: u64,
    prize_description: Seq<char>,
    end_timestamp: i64,
    now: i64,
) -> Option<GivefiError> {
    if end_timestamp <= now {
        Some(GivefiError::InvalidEndTime)
    } else if entry_cost_sol == 0 {
        Some(GivefiError::InvalidEntryPrice)
    } else if max_entries == 0 {
        Some(GivefiError::InvalidMaxEntries)
    } else if !(0 < min_participants <= max_entries) {
        Some(GivefiError::InvalidMinParticipants)
    } else if encode_utf8(prize_description).len() > MAX_DESCRIPTION_LEN {
        Some(GivefiError::DescriptionTooLong)
    } else {
        None
    }
}

/// A freshly created giveaway: open, no entries, empty vaults, nothing drawn.
pub open spec fn created_giveaway(
    authority: Identity,
    giveaway_id: u64,
    entry_cost_sol: u64,
    entry_cost_give: Option<u64>,
    max_entries: u64,
    min_participants: u64,
    prize_description: String,
    end_timestamp: i64,
    jackpot_option_enabled: bool,
    early_end_enabled: bool,
) -> Giveaway {
    Giveaway {
        id: giveaway_id,
        authority,
        entry_cost_sol,
        entry_cost_give,
        max_entries,
        min_participants,
        current_entries: 0,
        sol_entries: 0,
        give_entries: 0,
        prize_description,
        end_timestamp,
        jackpot_option_enabled,
        early_end_enabled,
        is_active: true,
        is_successful: false,
        winner: None,
        prize_claimed: false,
        jackpot_claimed: false,
        randomness_requested: false,
        sol_vault: 0,
        give_vault: 0,
    }
}

impl Giveaway {
    /// Why an entry paid in `asset` is refused at time `now`, checked in this
    /// order; `None` where it is accepted.
    pub open spec fn enter_error(self, asset: PaymentType, now: i64) -> Option<GivefiError> {
        if !self.is_active {
            Some(GivefiError::GiveawayNotActive)
        } else if now >= self.end_timestamp {
            Some(GivefiError::GiveawayEnded)
        } else if self.current_entries >= self.max_entries {
            Some(GivefiError::MaxEntriesReached)
        } else if asset == PaymentType::Give && self.entry_cost_give is None {
            Some(GivefiError::GiveTokensNotAccepted)
        } else {
            None
        }
    }

    /// The state after an accepted entry in `asset`: one more entry counted
    /// for that asset, and its fee in the matching vault.
    pub open spec fn entered(self, asset: PaymentType) -> Giveaway {
        match asset {
            PaymentType::Sol => Giveaway {
                current_entries: (self.current_entries + 1) as u64,
                sol_entries: (self.sol_entries + 1) as u64,
                sol_vault: (self.sol_vault + self.entry_cost_sol) as u128,
                ..self
            },
            PaymentType::Give => Giveaway {
                current_entries: (self.current_entries + 1) as u64,
                give_entries: (self.give_entries + 1) as u64,
                give_vault: (self.give_vault + self.give_cost()) as u128,
                ..self
            },
        }
    }

    /// The entry record that an accepted entry creates: the next sequence
    /// number, unclaimed.
    pub open spec fn new_entry(self, user: Identity, asset: PaymentType, now: i64) -> GiveawayEntry {
        GiveawayEntry {
            giveaway_id: self.id,
            user,
            entry_number: self.current_entries,
            timestamp: now,
            payment_type: asset,
            claimed: false,
        }
    }

    /// Why the organizer's early close is refused, checked in this order.
    pub open spec fn end_early_error(self, caller: Identity, now: i64) -> Option<GivefiError> {
        if !self.is_active {
            Some(GivefiError::GiveawayNotActive)
        } else if !self.early_end_enabled {
            Some(GivefiError::EarlyEndNotEnabled)
        } else if self.current_entries < self.min_participants {
            Some(GivefiError::MinParticipantsNotMet)
        } else if self.authority@ != caller@ {
            Some(GivefiError::UnauthorizedEarlyEnd)
        } else if now >= self.end_timestamp {
            Some(GivefiError::GiveawayAlreadyEnded)
        } else {
            None
        }
    }

    /// Why a request to the randomness oracle is refused, checked in this order.
    pub open spec fn request_error(self, now: i64) -> Option<GivefiError> {
        if !self.is_active {
            Some(GivefiError::GiveawayNotActive)
        } else if now < self.end_timestamp {
            Some(GivefiError::GiveawayNotEnded)
        } else if self.winner is Some {
            Some(GivefiError::WinnerAlreadyDrawn)
        } else if self.current_entries < self.min_participants {
            Some(GivefiError::MinParticipantsNotMet)
        } else {
            None
        }
    }
}

/// Sets up the protocol-wide record.
pub fn initialize_program(authority: Identity, treasury_wallet: Identity) -> (r: ProgramState)
    ensures
        r.authority == authority,
        r.treasury_wallet == treasury_wallet,
        r.total_giveaways == 0,
{
    ProgramState { authority, treasury_wallet, total_giveaways: 0 }
}

/// Validates a configuration and creates an open giveaway with no entries,
/// counting it in the protocol-wide record.
pub fn create_giveaway(
    program_state: &mut ProgramState,
    authority: Identity,
    giveaway_id: u64,
    entry_cost_sol: u64,
    entry_cost_give: Option<u64>,
    max_entries: u64,
    min_participants: u64,
    prize_description: String,
    end_timestamp: i64,
    jackpot_option_enabled: bool,
    early_end_enabled: bool,
    now: i64,
) -> (r: Result<Giveaway, GivefiError>)
    requires
        old(program_state).total_giveaways < u64::MAX,
    ensures
        match create_error(
            entry_cost_sol,
            max_entries,
            min_participants,
            prize_description@,
            end_timestamp,
            now,
        ) {
            Some(e) => {
                &&& r == Err::<Giveaway, GivefiError>(e)
                &&& *final(program_state) == *old(program_state)
            },
            None => {
                &&& r == Ok::<Giveaway, GivefiError>(
                    created_giveaway(
                        authority,
                        giveaway_id,
                        entry_cost_sol,
                        entry_cost_give,
                        max_entries,
                        min_participants,
                        prize_description,
                        end_timestamp,
                        jackpot_option_enabled,
                        early_end_enabled,
                    ),
                )
                &&& final(program_state).total_giveaways == old(program_state).total_giveaways + 1
                &&& final(program_state).authority == old(program_state).authority
                &&& final(program_state).treasury_wallet == old(program_state).treasury_wallet
            },
        },
        r matches Ok(g) ==> g.wf() && g.funds_balanced(),
{
    if end_timestamp <= now {
        return Err(GivefiError::InvalidEndTime);
    }
    if entry_cost_sol == 0 {
        return Err(GivefiError::InvalidEntryPrice);
    }
    if max_entries == 0 {
        return Err(GivefiError::InvalidMaxEntries);
    }
    if !(0 < min_participants && min_participants <= max_entries) {
        return Err(GivefiError::InvalidMinParticipants);
    }
    if prize_description.as_str().as_bytes().len() > MAX_DESCRIPTION_LEN {
        return Err(GivefiError::DescriptionTooLong);
    }
    program_state.total_giveaways = program_state.total_giveaways + 1;
    Ok(
        Giveaway {
            id: giveaway_id,
            authority,
            entry_cost_sol,
            entry_cost_give,
            max_entries,
            min_participants,
            current_entries: 0,
            sol_entries: 0,
            give_entries: 0,
            prize_description,
            end_timestamp,
            jackpot_option_enabled,
            early_end_enabled,
            is_active: true,
            is_successful: false,
            winner: None,
            prize_claimed: false,
            jackpot_claimed: false,
            randomness_requested: false,
            sol_vault: 0,
            give_vault: 0,
        },
    )
}

/// Shared body of the two entry paths.
fn enter(giveaway: &mut Giveaway, user: Identity, asset: PaymentType, now: i64) -> (r: Result<
    GiveawayEntry,
    GivefiError,
>)
    requires
        old(giveaway).wf(),
    ensures
        final(giveaway).wf(),
        match old(giveaway).enter_error(asset, now) {
            Some(e) => {
                &&& r == Err::<GiveawayEntry, GivefiError>(e)
                &&& *final(giveaway) == *old(giveaway)
            },
            None => {
                &&& r == Ok::<GiveawayEntry, GivefiError>(old(giveaway).new_entry(user, asset, now))
                &&& *final(giveaway) == old(giveaway).entered(asset)
            },
        },
{
    if !giveaway.is_active {
        return Err(GivefiError::GiveawayNotActive);
    }
    if now >= giveaway.end_timestamp {
        return Err(GivefiError::GiveawayEnded);
    }
    if giveaway.current_entries >= giveaway.max_entries {
        return Err(GivefiError::MaxEntriesReached);
    }
    let fee: u64 = match asset {
        PaymentType::Sol => giveaway.entry_cost_sol,
        PaymentType::Give => match giveaway.entry_cost_give {
            Some(c) => c,
            None => {
                return Err(GivefiError::GiveTokensNotAccepted);
            },
        },
    };
    let entry = GiveawayEntry {
        giveaway_id: giveaway.id,
        user,
        entry_number: giveaway.current_entries,
        timestamp: now,
        payment_type: asset,
        claimed: false,
    };
    let n: u64 = match asset {
        PaymentType::Sol => giveaway.sol_entries,
        PaymentType::Give => giveaway.give_entries,
    };
    proof {
        let c = fee as int;
        let k = n as int;
        assert(c * (k + 1) == c * k + c) by (nonlinear_arith);
        assert(c * (k + 1) <= 0xffff_ffff_ffff_ffff * 0xffff_ffff_ffff_ffff) by (nonlinear_arith)
            requires
                0 <= c <= 0xffff_ffff_ffff_ffff,
                0 <= k + 1 <= 0xffff_ffff_ffff_ffff,
        ;
    }
    match asset {
        PaymentType::Sol => {
            giveaway.sol_vault = giveaway.sol_vault + fee as u128;
            giveaway.sol_entries = giveaway.sol_entries + 1;
        },
        PaymentType::Give => {
            giveaway.give_vault = giveaway.give_vault + fee as u128;
            giveaway.give_entries = giveaway.give_entries + 1;
        },
    }
    giveaway.current_entries = giveaway.current_entries + 1;
    Ok(entry)
}

/// Records an entry paid in the native asset: its fee goes to the native
/// vault and the entry takes the next sequence number.
pub fn enter_giveaway_sol(giveaway: &mut Giveaway, user: Identity, now: i64) -> (r: Result<
    GiveawayEntry,
    GivefiError,
>)
    requires
        old(giveaway).wf(),
    ensures
        final(giveaway).wf(),
        *final(giveaway) == step(*old(giveaway), (Action::EnterSol { user, now })),
        match old(giveaway).enter_error(PaymentType::Sol, now) {
            Some(e) => {
                &&& r == Err::<GiveawayEntry, GivefiError>(e)
                &&& *final(giveaway) == *old(giveaway)
            },
            None => {
                &&& r == Ok::<GiveawayEntry, GivefiError>(
                    old(giveaway).new_entry(user, PaymentType::Sol, now),
                )
                &&& *final(giveaway) == old(giveaway).entered(PaymentType::Sol)
            },
        },
{
    enter(giveaway, user, PaymentType::Sol, now)
}

/// Records an entry paid in the token, where the giveaway accepts it: its
/// fee goes to the token vault and the entry takes the next sequence number.
pub fn enter_giveaway_give(giveaway: &mut Giveaway, user: Identity, now: i64) -> (r: Result<
    GiveawayEntry,
    GivefiError,
>)
    requires
        old(giveaway).wf(),
    ensures
        final(giveaway).wf(),
        *final(giveaway) == step(*old(giveaway), (Action::EnterGive { user, now })),
        match old(giveaway).enter_error(PaymentType::Give, now) {
            Some(e) => {
                &&& r == Err::<GiveawayEntry, GivefiError>(e)
                &&& *final(giveaway) == *old(giveaway)
            },
            None => {
                &&& r == Ok::<GiveawayEntry, GivefiError>(
                    old(giveaway).new_entry(user, PaymentType::Give, now),
                )
                &&& *final(giveaway) == old(giveaway).entered(PaymentType::Give)
            },
        },
{
    enter(giveaway, user, PaymentType::Give, now)
}

/// Lets the organizer close the giveaway before its deadline once enough
/// entries have arrived: the deadline becomes `now`.
pub fn end_raffle_early(giveaway: &mut Giveaway, caller: &Identity, now: i64) -> (r: Result<
    (),
    GivefiError,
>)
    requires
        old(giveaway).wf(),
    ensures
        final(giveaway).wf(),
        *final(giveaway) == step(*old(giveaway), (Action::EndEarly { caller: *caller, now })),
        match old(giveaway).end_early_error(*caller, now) {
            Some(e) => {
                &&& r == Err::<(), GivefiError>(e)
                &&& *final(giveaway) == *old(giveaway)
            },
            None => {
                &&& r == Ok::<(), GivefiError>(())
                &&& *final(giveaway) == (Giveaway { end_timestamp: now, ..*old(giveaway) })
            },
        },
{
    if !giveaway.is_active {
        return Err(GivefiError::GiveawayNotActive);
    }
    if !giveaway.early_end_enabled {
        return Err(GivefiError::EarlyEndNotEnabled);
    }
    if giveaway.current_entries < giveaway.min_participants {
        return Err(GivefiError::MinParticipantsNotMet);
    }
    if !giveaway.authority.same_as(caller) {
        return Err(GivefiError::UnauthorizedEarlyEnd);
    }
    if now >= giveaway.end_timestamp {
        return Err(GivefiError::GiveawayAlreadyEnded);
    }
    giveaway.end_timestamp = now;
    Ok(())
}

/// Checks that the oracle may be asked for randomness and marks the request.
/// The caller sends the request itself and keeps this state only once the
/// oracle has accepted it.
pub fn request_randomness(giveaway: &mut Giveaway, now: i64) -> (r: Result<(), GivefiError>)
    requires
        old(giveaway).wf(),
    ensures
        final(giveaway).wf(),
        *final(giveaway) == step(*old(giveaway), (Action::RequestRandomness { now })),
        match old(giveaway).request_error(now) {
            Some(e) => {
                &&& r == Err::<(), GivefiError>(e)
                &&& *final(giveaway) == *old(giveaway)
            },
            None => {
                &&& r == Ok::<(), GivefiError>(())
                &&& *final(giveaway) == (Giveaway {
                    randomness_requested: true,
                    ..*old(giveaway)
                })
            },
        },
{
    if !giveaway.is_active {
        return Err(GivefiError::GiveawayNotActive);
    }
    if now < giveaway.end_timestamp {
        return Err(GivefiError::GiveawayNotEnded);
    }
    if giveaway.winner.is_some() {
        return Err(GivefiError::WinnerAlreadyDrawn);
    }
    if giveaway.current_entries < giveaway.min_participants {
        return Err(GivefiError::MinParticipantsNotMet);
    }
    giveaway.randomness_requested = true;
    Ok(())
}

} // verus!
