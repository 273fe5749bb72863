use vstd::prelude::*;

verus! {

/// Every way an operation on a giveaway can be refused. A refused operation
/// changes nothing.
#[derive(Clone, Copy, Debug, PartialEq, Eq, Structural)]
pub enum GivefiError {
    InvalidEndTime,
    InvalidEntryPrice,
    InvalidMaxEntries,
    InvalidMinParticipants,
    DescriptionTooLong,
    GiveawayNotActive,
    GiveawayEnded,
    MaxEntriesReached,
    GiveawayNotEnded,
    NoEntries,
    WinnerAlreadyDrawn,
    SlotHashUnavailable,
    GiveawayStillActive,
    NoWinnerDrawn,
    PrizeAlreadyClaimed,
    NotWinner,
    UnauthorizedClaim,
    GiveTokensNotAccepted,
    GiveawayNotSuccessful,
    GiveawayWasSuccessful,
    JackpotNotEnabled,
    EarlyEndNotEnabled,
    MinParticipantsNotMet,
    UnauthorizedEarlyEnd,
    GiveawayAlreadyEnded,
    RandomnessNotRequested,
    RandomnessNotSettled,
    FallbackTooEarly,
    InvalidOwner,
    /// A vault holds less than a payout asks of it.
    InsufficientVaultFunds,
}

impl GivefiError {
    /// The message shown to a caller.
    pub fn message(&self) -> (r: &'static str) {
        match self {
            GivefiError::InvalidEndTime => "Invalid end time for giveaway",
            GivefiError::InvalidEntryPrice => "Invalid entry price",
            GivefiError::InvalidMaxEntries => "Invalid max entries",
            GivefiError::InvalidMinParticipants => "Invalid minimum participants",
            GivefiError::DescriptionTooLong => "Description too long",
            GivefiError::GiveawayNotActive => "Giveaway is not active",
            GivefiError::GiveawayEnded => "Giveaway has ended",
            GivefiError::MaxEntriesReached => "Maximum entries reached",
            GivefiError::GiveawayNotEnded => "Giveaway has not ended yet",
            GivefiError::NoEntries => "No entries in giveaway",
            GivefiError::WinnerAlreadyDrawn => "Winner already drawn",
            GivefiError::SlotHashUnavailable => "Slot hash unavailable",
            GivefiError::GiveawayStillActive => "Giveaway is still active",
            GivefiError::NoWinnerDrawn => "No winner drawn yet",
            GivefiError::PrizeAlreadyClaimed => "Prize already claimed",
            GivefiError::NotWinner => "Not the winner",
            GivefiError::UnauthorizedClaim => "Unauthorized claim",
            GivefiError::GiveTokensNotAccepted => "GIVE tokens not accepted for this giveaway",
            GivefiError::GiveawayNotSuccessful => "Giveaway was not successful",
            GivefiError::GiveawayWasSuccessful => "Giveaway was successful, no refunds",
            GivefiError::JackpotNotEnabled => "Jackpot option not enabled for this giveaway",
            GivefiError::EarlyEndNotEnabled => "Early end not enabled for this giveaway",
            GivefiError::MinParticipantsNotMet => "Minimum participants not yet met",
            GivefiError::UnauthorizedEarlyEnd => "Unauthorized to end raffle early",
            GivefiError::GiveawayAlreadyEnded => "Giveaway already ended",
            GivefiError::RandomnessNotRequested => "Randomness not requested yet",
            GivefiError::RandomnessNotSettled => "Randomness not settled yet",
            GivefiError::FallbackTooEarly =>
                "Fallback randomness can only be used 1 hour after giveaway end",
            GivefiError::InvalidOwner => "Invalid owner - must be giveaway authority",
            GivefiError::InsufficientVaultFunds => "Vault holds too little for this payout",
        }
    }
}

} // verus!
