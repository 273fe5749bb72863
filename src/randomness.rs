use vstd::prelude::*;

use crate::bytes::{all_zero, le_u64_value, low_u64_le};
use crate::error::GivefiError;
use crate::identity::Identity;
use crate::laws::{step, Action};
use crate::state::{Giveaway, FALLBACK_GRACE_SECONDS};

verus! {

// Three tiers choose the winning entry, weakest first:
//  - `draw_winner` reads a seed built from values known on chain. Whoever
//    controls the timing of the call can steer it: low-stakes use only.
//  - `request_randomness` then `settle_randomness_and_pick_winner` use the
//    oracle's 32-byte output.
//  - `draw_winner_fallback` uses the most recent block hash, once the oracle
//    has had an hour past the deadline to answer.
// Each reduces eight little-endian bytes modulo the number of entries.

/// The eight little-endian bytes of `x`.
pub open spec fn u64_le_bytes(x: u64) -> Seq<u8> {
    seq![
        (x % 0x100) as u8,
        ((x / 0x100) % 0x100) as u8,
        ((x / 0x1_0000) % 0x100) as u8,
        ((x / 0x100_0000) % 0x100) as u8,
        ((x / 0x1_0000_0000) % 0x100) as u8,
        ((x / 0x100_0000_0000) % 0x100) as u8,
        ((x / 0x1_0000_0000_0000) % 0x100) as u8,
        ((x / 0x100_0000_0000_0000) % 0x100) as u8,
    ]
}

/// The weak tier's seed: the giveaway id, the time, the entry count and the
/// first eight bytes of the organizer's key, one after the other.
pub open spec fn weak_seed(id: u64, now: i64, entries: u64, organizer: Identity) -> Seq<u8> {
    u64_le_bytes(id) + u64_le_bytes(now as u64) + u64_le_bytes(entries) + organizer@.subrange(0, 8)
}

/// The winning sequence number for a random value: `random mod entries`.
pub open spec fn winning_index(random: int, entries: int) -> int {
    random % entries
}

impl Giveaway {
    /// The terminal state of a pool that met its minimum: drawn, with the
    /// winner taken from `random`.
    pub open spec fn concluded_with(self, random: int) -> Giveaway {
        Giveaway {
            is_active: false,
            is_successful: true,
            winner: Some(winning_index(random, self.current_entries as int) as u64),
            ..self
        }
    }

    /// The terminal state of a pool that missed its minimum: no winner.
    pub open spec fn concluded_failed(self) -> Giveaway {
        Giveaway { is_active: false, is_successful: false, ..self }
    }

    /// Whether the pool reached its minimum number of participants.
    pub open spec fn met_minimum(self) -> bool {
        self.current_entries >= self.min_participants
    }

    /// Why the weak-tier draw is refused at time `now`, checked in this order.
    pub open spec fn draw_error(self, now: i64) -> Option<GivefiError> {
        if self.winner is Some {
            Some(GivefiError::WinnerAlreadyDrawn)
        } else if !self.is_active {
            Some(GivefiError::GiveawayNotActive)
        } else if now < self.end_timestamp {
            Some(GivefiError::GiveawayNotEnded)
        } else {
            None
        }
    }

    /// The state after an accepted weak-tier draw at time `now`.
    pub open spec fn drawn(self, now: i64) -> Giveaway {
        if self.met_minimum() {
            self.concluded_with(
                le_u64_value(weak_seed(self.id, now, self.current_entries, self.authority)),
            )
        } else {
            self.concluded_failed()
        }
    }

    /// Why settling the oracle's output `result` is refused, checked in this
    /// order. An all-zero output means the oracle has not answered yet.
    pub open spec fn settle_error(self, result: Seq<u8>) -> Option<GivefiError> {
        if self.winner is Some {
            Some(GivefiError::WinnerAlreadyDrawn)
        } else if !self.is_active {
            Some(GivefiError::GiveawayNotActive)
        } else if !self.randomness_requested {
            Some(GivefiError::RandomnessNotRequested)
        } else if forall|i: int| 0 <= i < result.len() ==> result[i] == 0 {
            Some(GivefiError::RandomnessNotSettled)
        } else {
            None
        }
    }

    /// Why the fallback draw is refused at time `now`, given the most recent
    /// block hash if one is exposed, checked in this order.
    pub open spec fn fallback_error(self, now: i64, block_hash: Option<[u8; 32]>) -> Option<
        GivefiError,
    > {
        if self.winner is Some {
            Some(GivefiError::WinnerAlreadyDrawn)
        } else if !self.is_active {
            Some(GivefiError::GiveawayNotActive)
        } else if now < self.end_timestamp + FALLBACK_GRACE_SECONDS {
            Some(GivefiError::FallbackTooEarly)
        } else if self.met_minimum() && block_hash is None {
            Some(GivefiError::SlotHashUnavailable)
        } else {
            None
        }
    }

    /// The state after an accepted fallback draw.
    pub open spec fn fallback_drawn(self, block_hash: Option<[u8; 32]>) -> Giveaway {
        match block_hash {
            Some(h) if self.met_minimum() => self.concluded_with(le_u64_value(h@)),
            _ => self.concluded_failed(),
        }
    }
}

/// The sequence number that `random` selects among `entries` entries.
pub fn select_index(random: u64, entries: u64) -> (r: u64)
    requires
        entries > 0,
    ensures
        r == winning_index(random as int, entries as int),
        r < entries,
{
    random % entries
}

/// Appends the eight little-endian bytes of `x` to `out`.
fn push_u64_le(out: &mut Vec<u8>, x: u64)
    ensures
        final(out)@ == old(out)@ + u64_le_bytes(x),
{
    out.push((x % 0x100) as u8);
    out.push(((x / 0x100) % 0x100) as u8);
    out.push(((x / 0x1_0000) % 0x100) as u8);
    out.push(((x / 0x100_0000) % 0x100) as u8);
    out.push(((x / 0x1_0000_0000) % 0x100) as u8);
    out.push(((x / 0x100_0000_0000) % 0x100) as u8);
    out.push(((x / 0x1_0000_0000_0000) % 0x100) as u8);
    out.push(((x / 0x100_0000_0000_0000) % 0x100) as u8);
    assert(final(out)@ =~= old(out)@ + u64_le_bytes(x));
}

/// Builds the weak tier's seed.
pub fn build_weak_seed(id: u64, now: i64, entries: u64, organizer: &Identity) -> (r: Vec<u8>)
    ensures
        r@ == weak_seed(id, now, entries, *organizer),
{
    let mut seed: Vec<u8> = Vec::new();
    push_u64_le(&mut seed, id);
    push_u64_le(&mut seed, now as u64);
    push_u64_le(&mut seed, entries);
    let ghost prefix = seed@;
    let mut i: usize = 0;
    while i < 8
        invariant
            i <= 8,
            organizer@.len() == 32,
            seed@ == prefix + organizer@.subrange(0, i as int),
        decreases 8 - i,
    {
        seed.push(organizer.bytes[i]);
        assert(seed@ =~= prefix + organizer@.subrange(0, i + 1));
        i = i + 1;
    }
    seed
}

/// The most recent block hash in the bytes of the slot-hashes record: a
/// little-endian entry count, then (slot, 32-byte hash) pairs, newest first.
/// `None` where the record is empty or too short to hold a first entry.
pub open spec fn latest_slot_hash_of(data: Seq<u8>) -> Option<Seq<u8>> {
    if data.len() >= 48 && le_u64_value(data) > 0 {
        Some(data.subrange(16, 48))
    } else {
        None
    }
}

/// Reads the most recent block hash out of the slot-hashes record.
pub fn latest_slot_hash(data: &[u8]) -> (r: Option<[u8; 32]>)
    ensures
        match latest_slot_hash_of(data@) {
            Some(h) => r matches Some(a) && a@ == h,
            None => r is None,
        },
{
    if data.len() < 48 {
        return None;
    }
    if low_u64_le(data) == 0 {
        return None;
    }
    let mut hash = [0u8; 32];
    let mut i: usize = 0;
    while i < 32
        invariant
            i <= 32,
            data@.len() >= 48,
            hash@.len() == 32,
            forall|j: int| 0 <= j < i ==> hash@[j] == data@[16 + j],
        decreases 32 - i,
    {
        hash.set(i, data[16 + i]);
        i = i + 1;
    }
    assert(hash@ =~= data@.subrange(16, 48));
    Some(hash)
}

/// The weak tier: after the deadline, concludes the giveaway. Where the pool
/// met its minimum, the winner comes from a seed of on-chain values; else the
/// giveaway fails and no winner is set.
pub fn draw_winner(giveaway: &mut Giveaway, now: i64) -> (r: Result<(), GivefiError>)
    requires
        old(giveaway).wf(),
    ensures
        final(giveaway).wf(),
        *final(giveaway) == step(*old(giveaway), (Action::Draw { source: RandomnessSource::Immediate { now } })),
        match old(giveaway).draw_error(now) {
            Some(e) => {
                &&& r == Err::<(), GivefiError>(e)
                &&& *final(giveaway) == *old(giveaway)
            },
            None => {
                &&& r == Ok::<(), GivefiError>(())
                &&& *final(giveaway) == old(giveaway).drawn(now)
            },
        },
        final(giveaway).winner matches Some(w) ==> w < final(giveaway).current_entries,
{
    if giveaway.winner.is_some() {
        return Err(GivefiError::WinnerAlreadyDrawn);
    }
    if !giveaway.is_active {
        return Err(GivefiError::GiveawayNotActive);
    }
    if now < giveaway.end_timestamp {
        return Err(GivefiError::GiveawayNotEnded);
    }
    if giveaway.current_entries >= giveaway.min_participants {
        let seed = build_weak_seed(giveaway.id, now, giveaway.current_entries, &giveaway.authority);
        let random = low_u64_le(seed.as_slice());
        let index = select_index(random, giveaway.current_entries);
        giveaway.is_successful = true;
        giveaway.winner = Some(index);
    } else {
        giveaway.is_successful = false;
    }
    giveaway.is_active = false;
    Ok(())
}

/// The oracle tier's second step: takes the oracle's 32-byte output and, once
/// it is nonzero, draws the winner from its first eight bytes and concludes
/// the giveaway as successful.
pub fn settle_randomness_and_pick_winner(giveaway: &mut Giveaway, vrf_result: &[u8; 32]) -> (r:
    Result<(), GivefiError>)
    requires
        old(giveaway).wf(),
    ensures
        final(giveaway).wf(),
        *final(giveaway) == step(*old(giveaway), (Action::Draw { source: RandomnessSource::Oracle { vrf_result: *vrf_result } })),
        match old(giveaway).settle_error(vrf_result@) {
            Some(e) => {
                &&& r == Err::<(), GivefiError>(e)
                &&& *final(giveaway) == *old(giveaway)
            },
            None => {
                &&& r == Ok::<(), GivefiError>(())
                &&& *final(giveaway) == old(giveaway).concluded_with(le_u64_value(vrf_result@))
            },
        },
        final(giveaway).winner matches Some(w) ==> w < final(giveaway).current_entries,
{
    if giveaway.winner.is_some() {
        return Err(GivefiError::WinnerAlreadyDrawn);
    }
    if !giveaway.is_active {
        return Err(GivefiError::GiveawayNotActive);
    }
    if !giveaway.randomness_requested {
        return Err(GivefiError::RandomnessNotRequested);
    }
    if all_zero(vrf_result.as_slice()) {
        return Err(GivefiError::RandomnessNotSettled);
    }
    let random = low_u64_le(vrf_result.as_slice());
    let index = select_index(random, giveaway.current_entries);
    giveaway.winner = Some(index);
    giveaway.is_successful = true;
    giveaway.is_active = false;
    Ok(())
}

/// The fallback tier: an hour past the deadline, concludes the giveaway
/// without the oracle. Where the pool met its minimum, the winner comes from
/// the most recent block hash, which must then be given; else the giveaway
/// fails and no winner is set.
pub fn draw_winner_fallback(giveaway: &mut Giveaway, now: i64, block_hash: Option<[u8; 32]>) -> (r:
    Result<(), GivefiError>)
    requires
        old(giveaway).wf(),
    ensures
        final(giveaway).wf(),
        *final(giveaway) == step(*old(giveaway), (Action::Draw { source: RandomnessSource::BlockHash { now, block_hash } })),
        match old(giveaway).fallback_error(now, block_hash) {
            Some(e) => {
                &&& r == Err::<(), GivefiError>(e)
                &&& *final(giveaway) == *old(giveaway)
            },
            None => {
                &&& r == Ok::<(), GivefiError>(())
                &&& *final(giveaway) == old(giveaway).fallback_drawn(block_hash)
            },
        },
        final(giveaway).winner matches Some(w) ==> w < final(giveaway).current_entries,
{
    if giveaway.winner.is_some() {
        return Err(GivefiError::WinnerAlreadyDrawn);
    }
    if !giveaway.is_active {
        return Err(GivefiError::GiveawayNotActive);
    }
    if (now as i128) < (giveaway.end_timestamp as i128) + (FALLBACK_GRACE_SECONDS as i128) {
        return Err(GivefiError::FallbackTooEarly);
    }
    if giveaway.current_entries >= giveaway.min_participants {
        match block_hash {
            Some(h) => {
                let random = low_u64_le(h.as_slice());
                let index = select_index(random, giveaway.current_entries);
                giveaway.is_successful = true;
                giveaway.winner = Some(index);
            },
            None => {
                return Err(GivefiError::SlotHashUnavailable);
            },
        }
    } else {
        giveaway.is_successful = false;
    }
    giveaway.is_active = false;
    Ok(())
}

/// Where a draw takes its randomness from: the three tiers, weakest first.
#[derive(Clone, Copy, Debug)]
pub enum RandomnessSource {
    /// A seed of on-chain values at time `now`; predictable, low stakes only.
    Immediate { now: i64 },
    /// The oracle's 32-byte output, after a request.
    Oracle { vrf_result: [u8; 32] },
    /// The most recent block hash, if one is exposed, at time `now`.
    BlockHash { now: i64, block_hash: Option<[u8; 32]> },
}

impl Giveaway {
    /// Why a draw from `source` is refused.
    pub open spec fn draw_from_error(self, source: RandomnessSource) -> Option<GivefiError> {
        match source {
            RandomnessSource::Immediate { now } => self.draw_error(now),
            RandomnessSource::Oracle { vrf_result } => self.settle_error(vrf_result@),
            RandomnessSource::BlockHash { now, block_hash } => self.fallback_error(now, block_hash),
        }
    }

    /// The state after an accepted draw from `source`.
    pub open spec fn drawn_from(self, source: RandomnessSource) -> Giveaway {
        match source {
            RandomnessSource::Immediate { now } => self.drawn(now),
            RandomnessSource::Oracle { vrf_result } => self.concluded_with(
                le_u64_value(vrf_result@),
            ),
            RandomnessSource::BlockHash { now, block_hash } => self.fallback_drawn(block_hash),
        }
    }
}

/// Draws through whichever tier `source` names.
pub fn draw_from(giveaway: &mut Giveaway, source: &RandomnessSource) -> (r: Result<(), GivefiError>)
    requires
        old(giveaway).wf(),
    ensures
        final(giveaway).wf(),
        *final(giveaway) == step(*old(giveaway), (Action::Draw { source: *source })),
        match old(giveaway).draw_from_error(*source) {
            Some(e) => {
                &&& r == Err::<(), GivefiError>(e)
                &&& *final(giveaway) == *old(giveaway)
            },
            None => {
                &&& r == Ok::<(), GivefiError>(())
                &&& *final(giveaway) == old(giveaway).drawn_from(*source)
            },
        },
        final(giveaway).winner matches Some(w) ==> w < final(giveaway).current_entries,
{
    match source {
        RandomnessSource::Immediate { now } => draw_winner(giveaway, *now),
        RandomnessSource::Oracle { vrf_result } => settle_randomness_and_pick_winner(
            giveaway,
            vrf_result,
        ),
        RandomnessSource::BlockHash { now, block_hash } => draw_winner_fallback(
            giveaway,
            *now,
            *block_hash,
        ),
    }
}

} // verus!
