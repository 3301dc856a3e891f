//! The furnace state machine: ignite, sinter, cool down.
//!
//! A furnace is either missing, active or cold. Igniting makes a missing or
//! cold furnace active; cooling makes an active one cold; sintering leaves an
//! active furnace active and adds one block to its count. Each transition
//! checks the caller against the furnace's authority first, then its own
//! conditions in a fixed order, and reports the first that fails. A refused
//! transition changes nothing.
//!
//! The host supplies what the engine cannot know: the records as stored, the
//! authenticated caller, the addresses and the clock. It stores what a
//! transition hands back and delivers the event.

use vstd::prelude::*;
use crate::errors::KilnError;
use crate::digest::{blake3_digest, blake3_hash};
use crate::pressure_cooker::{is_pure, validate_purity, MIN_PRESSURE};
use crate::state::{same_key, Furnace, Pubkey, SinteredBlock, MAX_RATED_TEMP};
use crate::thermodynamics::{calc_required_heat, lemma_required_heat_range, required_heat};

verus! {

/// What the host's clock reads when a transition runs.
#[derive(Debug, Clone, Copy, PartialEq, Eq)]
pub struct Clock {
    /// The host's ordering marker for this transition.
    pub slot: u64,
    /// Seconds since the Unix epoch.
    pub unix_timestamp: i64,
}

/// What an ignition works on.
#[derive(Debug, Clone, Copy, PartialEq, Eq)]
pub struct IgniteFurnace {
    /// The record stored for this authority, if there is one.
    pub furnace: Option<Furnace>,
    /// The authenticated caller.
    pub authority: Pubkey,
    /// Bump seed of the furnace's derived address.
    pub bump: u8,
}

/// What a sintering works on.
#[derive(Debug, Clone, Copy, PartialEq, Eq)]
pub struct SinterBatch {
    /// The furnace record as stored.
    pub furnace: Furnace,
    /// The address the furnace record is stored at.
    pub furnace_key: Pubkey,
    /// The address the new block will be stored at.
    pub sintered_block_key: Pubkey,
    /// The authenticated caller.
    pub authority: Pubkey,
}

/// What an emergency cooldown works on.
#[derive(Debug, Clone, Copy, PartialEq, Eq)]
pub struct EmergencyCooldown {
    /// The furnace record as stored.
    pub furnace: Furnace,
    /// The authenticated caller.
    pub authority: Pubkey,
}

/// Notice that a furnace was ignited.
#[derive(Debug, Clone, Copy, PartialEq, Eq)]
pub struct FurnaceIgnited {
    pub authority: Pubkey,
    pub initial_temp: u64,
    pub timestamp: i64,
}

/// Notice that a block was sintered.
#[derive(Debug, Clone, Copy, PartialEq, Eq)]
pub struct BlockSintered {
    pub block_id: Pubkey,
    pub data_hash: [u8; 32],
    pub temperature: u64,
    pub pressure: u8,
    pub slot: u64,
}

/// The reserved bytes of a new furnace: 64 zero bytes.
pub open spec fn zeroed_reserve() -> [u8; 64] {
    vstd::array::spec_array_fill_for_copy_type::<u8, 64>(0u8)
}

/// Why an ignition is refused, if it is: the stored furnace belongs to
/// someone else.
pub open spec fn ignite_refusal(ctx: IgniteFurnace) -> Option<KilnError> {
    match ctx.furnace {
        Some(stored) if stored.authority != ctx.authority => Some(KilnError::UnauthorizedAccess),
        _ => None,
    }
}

/// The furnace as an ignition leaves it: active at the requested temperature,
/// rated for `MAX_RATED_TEMP`, with no blocks counted. A furnace that was
/// stored before keeps its reserved bytes; a new one has them zeroed.
pub open spec fn ignited(ctx: IgniteFurnace, initial_temp: u64) -> Furnace {
    Furnace {
        authority: ctx.authority,
        current_temp: initial_temp,
        max_rated_temp: MAX_RATED_TEMP,
        total_sintered_blocks: 0,
        is_active: true,
        bump: ctx.bump,
        _reserved: match ctx.furnace {
            Some(stored) => stored._reserved,
            None => zeroed_reserve(),
        },
    }
}

/// Why a sintering is refused, if it is. The checks run in this order and
/// the first that fails decides: the caller is the furnace's authority; the
/// furnace is active; the pressure is at least `MIN_PRESSURE`; the furnace is
/// at least as hot as the batch requires; the furnace is no hotter than its
/// rating.
pub open spec fn sinter_refusal(ctx: SinterBatch, hash: Seq<u8>, pressure: u8) -> Option<
    KilnError,
> {
    if ctx.authority != ctx.furnace.authority {
        Some(KilnError::UnauthorizedAccess)
    } else if !ctx.furnace.is_active {
        Some(KilnError::FurnaceCold)
    } else if pressure < MIN_PRESSURE {
        Some(KilnError::InsufficientPressure)
    } else if ctx.furnace.current_temp < required_heat(hash, pressure) {
        Some(KilnError::ThermalDeficiency)
    } else if ctx.furnace.current_temp > ctx.furnace.max_rated_temp {
        Some(KilnError::ThermalRunawayRisk)
    } else {
        None
    }
}

/// The block that a successful sintering creates: the hash and pressure as
/// given, the clock's time, the furnace's temperature and address, and the
/// furnace's block count before this block as its sequence number.
pub open spec fn sintered_block(
    ctx: SinterBatch,
    hash: [u8; 32],
    pressure: u8,
    clock: Clock,
) -> SinteredBlock {
    SinteredBlock {
        data_hash: hash,
        sintered_at: clock.unix_timestamp,
        pressure_applied: pressure,
        final_temperature: ctx.furnace.current_temp,
        furnace: ctx.furnace_key,
        sequence_id: ctx.furnace.total_sintered_blocks,
    }
}

/// The notice that a successful sintering hands back for delivery.
pub open spec fn sintered_event(
    ctx: SinterBatch,
    hash: [u8; 32],
    pressure: u8,
    clock: Clock,
) -> BlockSintered {
    BlockSintered {
        block_id: ctx.sintered_block_key,
        data_hash: hash,
        temperature: ctx.furnace.current_temp,
        pressure,
        slot: clock.slot,
    }
}

/// The furnace as a successful sintering leaves it: one more block counted,
/// nothing else changed.
pub open spec fn after_sinter(furnace: Furnace) -> Furnace {
    Furnace { total_sintered_blocks: (furnace.total_sintered_blocks + 1) as u64, ..furnace }
}

/// Why a cooldown is refused, if it is: the caller is not the furnace's
/// authority, or the furnace is cold already.
pub open spec fn cooldown_refusal(ctx: EmergencyCooldown) -> Option<KilnError> {
    if ctx.authority != ctx.furnace.authority {
        Some(KilnError::UnauthorizedAccess)
    } else if !ctx.furnace.is_active {
        Some(KilnError::FurnaceCold)
    } else {
        None
    }
}

/// Why sintering raw feedstock is refused, if it is. The caller is checked
/// first, then the feedstock; the checks of `sinter_refusal` follow, on the
/// digest of the feedstock.
pub open spec fn feedstock_refusal(ctx: SinterBatch, raw_data: Seq<u8>, pressure: u8) -> Option<
    KilnError,
> {
    if ctx.authority != ctx.furnace.authority {
        Some(KilnError::UnauthorizedAccess)
    } else if !is_pure(raw_data) {
        Some(KilnError::ContaminatedFeedstock)
    } else {
        sinter_refusal(ctx, blake3_digest(raw_data), pressure)
    }
}

/// The furnace as a cooldown leaves it: cold, at zero Kelvin.
pub open spec fn cooled(furnace: Furnace) -> Furnace {
    Furnace { is_active: false, current_temp: 0, ..furnace }
}

/// Ignites the furnace at the requested temperature.
///
/// The furnace must be missing or cold. A stored furnace can only be ignited
/// by its authority.
pub fn ignite(ctx: &mut IgniteFurnace, initial_temp: u64, clock: &Clock) -> (outcome: Result<
    FurnaceIgnited,
    KilnError,
>)
    requires
        old(ctx).furnace matches Some(stored) ==> !stored.is_active,
    ensures
        match outcome {
            Ok(event) => {
                &&& ignite_refusal(*old(ctx)) is None
                &&& *final(ctx) == (IgniteFurnace {
                    furnace: Some(ignited(*old(ctx), initial_temp)),
                    ..*old(ctx)
                })
                &&& event == (FurnaceIgnited {
                    authority: old(ctx).authority,
                    initial_temp,
                    timestamp: clock.unix_timestamp,
                })
                &&& ignited(*old(ctx), initial_temp).well_formed()
            },
            Err(e) => ignite_refusal(*old(ctx)) == Some(e) && *final(ctx) == *old(ctx),
        },
{
    let reserved = match &ctx.furnace {
        Some(stored) => {
            if !same_key(&stored.authority, &ctx.authority) {
                return Err(KilnError::UnauthorizedAccess);
            }
            stored._reserved
        },
        None => [0u8; 64],
    };
    ctx.furnace = Some(
        Furnace {
            authority: ctx.authority,
            current_temp: initial_temp,
            max_rated_temp: MAX_RATED_TEMP,
            total_sintered_blocks: 0,
            is_active: true,
            bump: ctx.bump,
            _reserved: reserved,
        },
    );
    Ok(
        FurnaceIgnited {
            authority: ctx.authority,
            initial_temp,
            timestamp: clock.unix_timestamp,
        },
    )
}

/// The core sintering process: checks the furnace against the batch and, if
/// every check passes, creates the block and counts it.
///
/// The block count must be below `u64::MAX`, so that it can grow by one.
pub fn sinter_batch(
    ctx: &mut SinterBatch,
    raw_data_hash: [u8; 32],
    pressure_level: u8,
    clock: &Clock,
) -> (outcome: Result<(SinteredBlock, BlockSintered), KilnError>)
    requires
        old(ctx).furnace.total_sintered_blocks < u64::MAX,
    ensures
        match outcome {
            Ok((block, event)) => {
                &&& sinter_refusal(*old(ctx), raw_data_hash@, pressure_level) is None
                &&& block == sintered_block(*old(ctx), raw_data_hash, pressure_level, *clock)
                &&& event == sintered_event(*old(ctx), raw_data_hash, pressure_level, *clock)
                &&& *final(ctx) == (SinterBatch {
                    furnace: after_sinter(old(ctx).furnace),
                    ..*old(ctx)
                })
                &&& final(ctx).furnace.total_sintered_blocks == old(ctx).furnace.total_sintered_blocks
                    + 1
                &&& block.pressure_applied >= MIN_PRESSURE
                &&& required_heat(raw_data_hash@, pressure_level) <= block.final_temperature
                    <= old(ctx).furnace.max_rated_temp
            },
            Err(e) => {
                &&& sinter_refusal(*old(ctx), raw_data_hash@, pressure_level) == Some(e)
                &&& *final(ctx) == *old(ctx)
            },
        },
        old(ctx).furnace.well_formed() ==> final(ctx).furnace.well_formed(),
{
    if !same_key(&ctx.authority, &ctx.furnace.authority) {
        return Err(KilnError::UnauthorizedAccess);
    }
    if !ctx.furnace.is_active {
        return Err(KilnError::FurnaceCold);
    }
    if pressure_level < MIN_PRESSURE {
        return Err(KilnError::InsufficientPressure);
    }
    let required = calc_required_heat(&raw_data_hash, pressure_level);
    if ctx.furnace.current_temp < required {
        return Err(KilnError::ThermalDeficiency);
    }
    if ctx.furnace.current_temp > ctx.furnace.max_rated_temp {
        return Err(KilnError::ThermalRunawayRisk);
    }
    let block = SinteredBlock {
        data_hash: raw_data_hash,
        sintered_at: clock.unix_timestamp,
        pressure_applied: pressure_level,
        final_temperature: ctx.furnace.current_temp,
        furnace: ctx.furnace_key,
        sequence_id: ctx.furnace.total_sintered_blocks,
    };
    ctx.furnace.total_sintered_blocks = ctx.furnace.total_sintered_blocks + 1;
    let event = BlockSintered {
        block_id: ctx.sintered_block_key,
        data_hash: raw_data_hash,
        temperature: ctx.furnace.current_temp,
        pressure: pressure_level,
        slot: clock.slot,
    };
    Ok((block, event))
}

/// Sinters raw feedstock: validates it, takes its digest and sinters the
/// digest as `sinter_batch` does. The raw bytes go no further than the
/// digest.
///
/// The block count must be below `u64::MAX`, so that it can grow by one.
pub fn sinter_feedstock(
    ctx: &mut SinterBatch,
    raw_data: &[u8],
    pressure_level: u8,
    clock: &Clock,
) -> (outcome: Result<(SinteredBlock, BlockSintered), KilnError>)
    requires
        old(ctx).furnace.total_sintered_blocks < u64::MAX,
    ensures
        match outcome {
            Ok((block, event)) => {
                &&& feedstock_refusal(*old(ctx), raw_data@, pressure_level) is None
                &&& block.data_hash@ == blake3_digest(raw_data@)
                &&& block == sintered_block(*old(ctx), block.data_hash, pressure_level, *clock)
                &&& event == sintered_event(*old(ctx), block.data_hash, pressure_level, *clock)
                &&& *final(ctx) == (SinterBatch {
                    furnace: after_sinter(old(ctx).furnace),
                    ..*old(ctx)
                })
            },
            Err(e) => {
                &&& feedstock_refusal(*old(ctx), raw_data@, pressure_level) == Some(e)
                &&& *final(ctx) == *old(ctx)
            },
        },
        old(ctx).furnace.well_formed() ==> final(ctx).furnace.well_formed(),
{
    if !same_key(&ctx.authority, &ctx.furnace.authority) {
        return Err(KilnError::UnauthorizedAccess);
    }
    if !validate_purity(raw_data) {
        return Err(KilnError::ContaminatedFeedstock);
    }
    let hash = blake3_hash(raw_data);
    sinter_batch(ctx, hash, pressure_level, clock)
}

/// Emergency shutdown: takes an active furnace offline and to zero Kelvin.
pub fn emergency_cooldown(ctx: &mut EmergencyCooldown) -> (outcome: Result<(), KilnError>)
    ensures
        match outcome {
            Ok(_) => {
                &&& cooldown_refusal(*old(ctx)) is None
                &&& *final(ctx) == (EmergencyCooldown {
                    furnace: cooled(old(ctx).furnace),
                    ..*old(ctx)
                })
            },
            Err(e) => cooldown_refusal(*old(ctx)) == Some(e) && *final(ctx) == *old(ctx),
        },
        old(ctx).furnace.well_formed() ==> final(ctx).furnace.well_formed(),
{
    if !same_key(&ctx.authority, &ctx.furnace.authority) {
        return Err(KilnError::UnauthorizedAccess);
    }
    if !ctx.furnace.is_active {
        return Err(KilnError::FurnaceCold);
    }
    ctx.furnace.is_active = false;
    ctx.furnace.current_temp = 0;
    Ok(())
}

/// Reads a furnace record. Reading changes nothing, so two reads with no
/// transition between them return the same record.
pub fn status(furnace: &Furnace) -> (record: Furnace)
    ensures
        record == *furnace,
{
    *furnace
}

/// The thermal check is inclusive: an active furnace of the standard rating
/// whose temperature is exactly the required heat sinters the batch, when its
/// authority asks with sufficient pressure.
pub proof fn lemma_sinter_at_exact_heat(ctx: SinterBatch, hash: Seq<u8>, pressure: u8)
    requires
        hash.len() == 32,
        ctx.furnace.well_formed(),
        ctx.furnace.is_active,
        ctx.authority == ctx.furnace.authority,
        pressure >= MIN_PRESSURE,
        ctx.furnace.current_temp == required_heat(hash, pressure),
    ensures
        sinter_refusal(ctx, hash, pressure) is None,
{
    lemma_required_heat_range(hash, pressure);
}

} // verus!
