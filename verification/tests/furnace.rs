use kiln::errors::KilnError;
use kiln::furnace::{
    emergency_cooldown, ignite, sinter_batch, sinter_feedstock, status, BlockSintered, Clock,
    EmergencyCooldown, FurnaceIgnited, IgniteFurnace, SinterBatch,
};
use kiln::state::{same_key, Furnace, SinteredBlock};
use kiln::thermodynamics::calc_required_heat;

const AUTHORITY_A: [u8; 32] = [0xa1; 32];
const AUTHORITY_B: [u8; 32] = [0xb2; 32];
const FURNACE_KEY: [u8; 32] = [0xf0; 32];
const BLOCK_KEY: [u8; 32] = [0xbb; 32];
const CLOCK: Clock = Clock { slot: 77, unix_timestamp: 1_700_000_000 };

fn ignited_furnace(authority: [u8; 32], temp: u64) -> Furnace {
    let mut ctx = IgniteFurnace { furnace: None, authority, bump: 254 };
    ignite(&mut ctx, temp, &CLOCK).unwrap();
    ctx.furnace.unwrap()
}

fn sinter_ctx(furnace: Furnace, authority: [u8; 32]) -> SinterBatch {
    SinterBatch { furnace, furnace_key: FURNACE_KEY, sintered_block_key: BLOCK_KEY, authority }
}

fn distinct_hash() -> [u8; 32] {
    let mut hash = [0u8; 32];
    for (i, slot) in hash.iter_mut().enumerate() {
        *slot = i as u8;
    }
    hash
}

#[test]
fn ignite_new_furnace() {
    let mut ctx = IgniteFurnace { furnace: None, authority: AUTHORITY_A, bump: 254 };
    let event = ignite(&mut ctx, 3000, &CLOCK).unwrap();
    let furnace = ctx.furnace.unwrap();
    assert!(furnace.is_active);
    assert_eq!(furnace.current_temp, 3000);
    assert_eq!(furnace.total_sintered_blocks, 0);
    assert_eq!(furnace.max_rated_temp, 5000);
    assert_eq!(furnace.authority, AUTHORITY_A);
    assert_eq!(furnace.bump, 254);
    assert_eq!(furnace._reserved, [0u8; 64]);
    assert_eq!(
        event,
        FurnaceIgnited { authority: AUTHORITY_A, initial_temp: 3000, timestamp: 1_700_000_000 }
    );
    assert_eq!(ctx.authority, AUTHORITY_A);
    assert_eq!(ctx.bump, 254);
}

#[test]
fn sinter_refused_when_too_cold() {
    let furnace = ignited_furnace(AUTHORITY_A, 2000);
    let mut ctx = sinter_ctx(furnace, AUTHORITY_A);
    assert_eq!(calc_required_heat(&[0u8; 32], 90), 2765);
    let outcome = sinter_batch(&mut ctx, [0u8; 32], 90, &CLOCK);
    assert_eq!(outcome, Err(KilnError::ThermalDeficiency));
    assert_eq!(ctx.furnace, furnace);
    assert_eq!(ctx.furnace.total_sintered_blocks, 0);
}

#[test]
fn sinter_after_reignition_at_full_heat() {
    let furnace = ignited_furnace(AUTHORITY_A, 2000);
    let mut cooling = EmergencyCooldown { furnace, authority: AUTHORITY_A };
    emergency_cooldown(&mut cooling).unwrap();
    let mut igniting =
        IgniteFurnace { furnace: Some(cooling.furnace), authority: AUTHORITY_A, bump: 254 };
    ignite(&mut igniting, 5000, &CLOCK).unwrap();
    let furnace = igniting.furnace.unwrap();
    assert!(furnace.is_active);
    assert_eq!(furnace.current_temp, 5000);

    let mut ctx = sinter_ctx(furnace, AUTHORITY_A);
    let (block, event) = sinter_batch(&mut ctx, [0u8; 32], 90, &CLOCK).unwrap();
    assert_eq!(block.sequence_id, 0);
    assert_eq!(block.final_temperature, 5000);
    assert_eq!(ctx.furnace.total_sintered_blocks, 1);
    assert_eq!(
        block,
        SinteredBlock {
            data_hash: [0u8; 32],
            sintered_at: 1_700_000_000,
            pressure_applied: 90,
            final_temperature: 5000,
            furnace: FURNACE_KEY,
            sequence_id: 0,
        }
    );
    assert_eq!(
        event,
        BlockSintered {
            block_id: BLOCK_KEY,
            data_hash: [0u8; 32],
            temperature: 5000,
            pressure: 90,
            slot: 77,
        }
    );
    assert!(ctx.furnace.is_active);
    assert_eq!(ctx.furnace.current_temp, 5000);
}

#[test]
fn cooldown_of_cold_furnace_is_refused() {
    let furnace = ignited_furnace(AUTHORITY_A, 3000);
    let mut ctx = EmergencyCooldown { furnace, authority: AUTHORITY_A };
    assert_eq!(emergency_cooldown(&mut ctx), Ok(()));
    assert!(!ctx.furnace.is_active);
    assert_eq!(ctx.furnace.current_temp, 0);
    let cold = ctx.furnace;
    assert_eq!(emergency_cooldown(&mut ctx), Err(KilnError::FurnaceCold));
    assert_eq!(ctx.furnace, cold);
}

#[test]
fn insufficient_pressure_at_any_temperature() {
    for temp in [0u64, 2000, 2425, 5000, 6000, u64::MAX] {
        let furnace = ignited_furnace(AUTHORITY_A, temp);
        let mut ctx = sinter_ctx(furnace, AUTHORITY_A);
        let outcome = sinter_batch(&mut ctx, [0u8; 32], 50, &CLOCK);
        assert_eq!(outcome, Err(KilnError::InsufficientPressure));
        assert_eq!(ctx.furnace, furnace);
    }
    let furnace = ignited_furnace(AUTHORITY_A, 5000);
    let mut ctx = sinter_ctx(furnace, AUTHORITY_A);
    assert_eq!(sinter_batch(&mut ctx, [0u8; 32], 89, &CLOCK), Err(KilnError::InsufficientPressure));
}

#[test]
fn sinter_at_exactly_the_required_heat() {
    for (hash, pressure) in [([0u8; 32], 90u8), ([0u8; 32], 91), (distinct_hash(), 255)] {
        let required = calc_required_heat(&hash, pressure);
        let furnace = ignited_furnace(AUTHORITY_A, required);
        let mut ctx = sinter_ctx(furnace, AUTHORITY_A);
        let (block, _) = sinter_batch(&mut ctx, hash, pressure, &CLOCK).unwrap();
        assert_eq!(block.final_temperature, required);

        let furnace = ignited_furnace(AUTHORITY_A, required - 1);
        let mut ctx = sinter_ctx(furnace, AUTHORITY_A);
        assert_eq!(
            sinter_batch(&mut ctx, hash, pressure, &CLOCK),
            Err(KilnError::ThermalDeficiency)
        );
    }
}

#[test]
fn sinter_does_not_consume_heat() {
    let furnace = ignited_furnace(AUTHORITY_A, 4000);
    let mut ctx = sinter_ctx(furnace, AUTHORITY_A);
    sinter_batch(&mut ctx, [3u8; 32], 100, &CLOCK).unwrap();
    assert_eq!(ctx.furnace.current_temp, 4000);
    assert!(ctx.furnace.is_active);
    assert_eq!(ctx.furnace.max_rated_temp, 5000);
    assert_eq!(ctx.furnace.authority, AUTHORITY_A);
}

#[test]
fn sequence_ids_count_up() {
    let furnace = ignited_furnace(AUTHORITY_A, 4500);
    let mut ctx = sinter_ctx(furnace, AUTHORITY_A);
    for expected in 0..5u64 {
        let (block, _) = sinter_batch(&mut ctx, [expected as u8; 32], 120, &CLOCK).unwrap();
        assert_eq!(block.sequence_id, expected);
        assert_eq!(ctx.furnace.total_sintered_blocks, expected + 1);
    }
}

#[test]
fn sinter_on_cold_furnace() {
    let furnace = ignited_furnace(AUTHORITY_A, 4500);
    let mut cooling = EmergencyCooldown { furnace, authority: AUTHORITY_A };
    emergency_cooldown(&mut cooling).unwrap();
    let mut ctx = sinter_ctx(cooling.furnace, AUTHORITY_A);
    // Cold comes before the pressure check.
    assert_eq!(sinter_batch(&mut ctx, [0u8; 32], 10, &CLOCK), Err(KilnError::FurnaceCold));
    assert_eq!(sinter_batch(&mut ctx, [0u8; 32], 90, &CLOCK), Err(KilnError::FurnaceCold));
    assert_eq!(ctx.furnace, cooling.furnace);
}

#[test]
fn sinter_above_rating_is_refused() {
    let furnace = ignited_furnace(AUTHORITY_A, 5001);
    let mut ctx = sinter_ctx(furnace, AUTHORITY_A);
    assert_eq!(sinter_batch(&mut ctx, [0u8; 32], 90, &CLOCK), Err(KilnError::ThermalRunawayRisk));
    assert_eq!(ctx.furnace, furnace);

    let furnace = ignited_furnace(AUTHORITY_A, 5000);
    let mut ctx = sinter_ctx(furnace, AUTHORITY_A);
    assert!(sinter_batch(&mut ctx, [0u8; 32], 90, &CLOCK).is_ok());
}

#[test]
fn deficiency_comes_before_runaway() {
    let mut furnace = ignited_furnace(AUTHORITY_A, 2500);
    furnace.max_rated_temp = 2400;
    let mut ctx = sinter_ctx(furnace, AUTHORITY_A);
    assert_eq!(sinter_batch(&mut ctx, [0u8; 32], 90, &CLOCK), Err(KilnError::ThermalDeficiency));
    let mut furnace = ignited_furnace(AUTHORITY_A, 2800);
    furnace.max_rated_temp = 2400;
    let mut ctx = sinter_ctx(furnace, AUTHORITY_A);
    assert_eq!(sinter_batch(&mut ctx, [0u8; 32], 90, &CLOCK), Err(KilnError::ThermalRunawayRisk));
}

#[test]
fn only_the_authority_may_act() {
    let furnace = ignited_furnace(AUTHORITY_A, 4500);

    let mut ctx = sinter_ctx(furnace, AUTHORITY_B);
    // The authority is checked before anything else.
    assert_eq!(sinter_batch(&mut ctx, [0u8; 32], 10, &CLOCK), Err(KilnError::UnauthorizedAccess));
    assert_eq!(sinter_feedstock(&mut ctx, b"", 10, &CLOCK), Err(KilnError::UnauthorizedAccess));
    assert_eq!(ctx.furnace, furnace);

    let mut cooling = EmergencyCooldown { furnace, authority: AUTHORITY_B };
    assert_eq!(emergency_cooldown(&mut cooling), Err(KilnError::UnauthorizedAccess));
    assert_eq!(cooling.furnace, furnace);

    let mut cooling = EmergencyCooldown { furnace, authority: AUTHORITY_A };
    emergency_cooldown(&mut cooling).unwrap();
    let mut igniting =
        IgniteFurnace { furnace: Some(cooling.furnace), authority: AUTHORITY_B, bump: 1 };
    assert_eq!(ignite(&mut igniting, 3000, &CLOCK), Err(KilnError::UnauthorizedAccess));
    assert_eq!(igniting.furnace, Some(cooling.furnace));

    let mut nearly = AUTHORITY_A;
    nearly[31] ^= 1;
    let mut ctx = sinter_ctx(furnace, nearly);
    assert_eq!(sinter_batch(&mut ctx, [0u8; 32], 90, &CLOCK), Err(KilnError::UnauthorizedAccess));
}

#[test]
fn reignition_resets_the_count_and_keeps_the_reserve() {
    let mut furnace = ignited_furnace(AUTHORITY_A, 4500);
    furnace._reserved[5] = 9;
    let mut ctx = sinter_ctx(furnace, AUTHORITY_A);
    sinter_batch(&mut ctx, [1u8; 32], 90, &CLOCK).unwrap();
    sinter_batch(&mut ctx, [2u8; 32], 90, &CLOCK).unwrap();
    assert_eq!(ctx.furnace.total_sintered_blocks, 2);

    let mut cooling = EmergencyCooldown { furnace: ctx.furnace, authority: AUTHORITY_A };
    emergency_cooldown(&mut cooling).unwrap();
    assert_eq!(cooling.furnace.total_sintered_blocks, 2);

    let mut igniting =
        IgniteFurnace { furnace: Some(cooling.furnace), authority: AUTHORITY_A, bump: 7 };
    let later = Clock { slot: 78, unix_timestamp: 1_700_000_100 };
    let event = ignite(&mut igniting, 3500, &later).unwrap();
    let furnace = igniting.furnace.unwrap();
    assert_eq!(furnace.total_sintered_blocks, 0);
    assert_eq!(furnace.current_temp, 3500);
    assert_eq!(furnace.bump, 7);
    assert_eq!(furnace._reserved[5], 9);
    assert!(furnace.is_active);
    assert_eq!(event.timestamp, 1_700_000_100);
}

#[test]
fn ignite_above_rating_is_allowed() {
    let furnace = ignited_furnace(AUTHORITY_A, 9000);
    assert!(furnace.is_active);
    assert_eq!(furnace.current_temp, 9000);
    assert_eq!(furnace.max_rated_temp, 5000);
}

#[test]
fn status_reads_the_record_unchanged() {
    let furnace = ignited_furnace(AUTHORITY_A, 3000);
    let first = status(&furnace);
    let second = status(&furnace);
    assert_eq!(first, second);
    assert_eq!(first, furnace);
}

#[test]
fn feedstock_is_validated_then_digested() {
    let furnace = ignited_furnace(AUTHORITY_A, 4500);
    let mut ctx = sinter_ctx(furnace, AUTHORITY_A);
    let data = b"test data for sintering";
    let (block, event) = sinter_feedstock(&mut ctx, data, 90, &CLOCK).unwrap();
    assert_eq!(&block.data_hash, blake3::hash(data).as_bytes());
    assert_eq!(event.data_hash, block.data_hash);
    assert_eq!(block.sequence_id, 0);
    assert_eq!(block.pressure_applied, 90);
    assert_eq!(block.furnace, FURNACE_KEY);
    assert_eq!(event.block_id, BLOCK_KEY);
    assert_eq!(ctx.furnace.total_sintered_blocks, 1);

    let mut by_hash = sinter_ctx(furnace, AUTHORITY_A);
    let same = sinter_batch(&mut by_hash, block.data_hash, 90, &CLOCK).unwrap();
    assert_eq!(same, (block, event));
}

#[test]
fn contaminated_feedstock_is_refused() {
    let furnace = ignited_furnace(AUTHORITY_A, 4500);
    let mut ctx = sinter_ctx(furnace, AUTHORITY_A);
    assert_eq!(
        sinter_feedstock(&mut ctx, b"", 90, &CLOCK),
        Err(KilnError::ContaminatedFeedstock)
    );
    let too_long = vec![1u8; 10_485_761];
    assert_eq!(
        sinter_feedstock(&mut ctx, &too_long, 90, &CLOCK),
        Err(KilnError::ContaminatedFeedstock)
    );
    assert_eq!(ctx.furnace, furnace);

    // Contamination is found before the furnace is looked at.
    let mut cooling = EmergencyCooldown { furnace, authority: AUTHORITY_A };
    emergency_cooldown(&mut cooling).unwrap();
    let mut cold = sinter_ctx(cooling.furnace, AUTHORITY_A);
    assert_eq!(
        sinter_feedstock(&mut cold, b"", 90, &CLOCK),
        Err(KilnError::ContaminatedFeedstock)
    );
    assert_eq!(sinter_feedstock(&mut cold, b"x", 90, &CLOCK), Err(KilnError::FurnaceCold));
}

#[test]
fn feedstock_too_hot_for_a_low_furnace() {
    let data = b"test data for sintering";
    let hash = *blake3::hash(data).as_bytes();
    let required = calc_required_heat(&hash, 200);
    let furnace = ignited_furnace(AUTHORITY_A, required - 1);
    let mut ctx = sinter_ctx(furnace, AUTHORITY_A);
    assert_eq!(sinter_feedstock(&mut ctx, data, 200, &CLOCK), Err(KilnError::ThermalDeficiency));
    let furnace = ignited_furnace(AUTHORITY_A, required);
    let mut ctx = sinter_ctx(furnace, AUTHORITY_A);
    assert!(sinter_feedstock(&mut ctx, data, 200, &CLOCK).is_ok());
}

#[test]
fn record_sizes() {
    assert_eq!(Furnace::LEN, 122);
    assert_eq!(SinteredBlock::LEN, 89);
}

#[test]
fn error_messages() {
    assert_eq!(KilnError::FurnaceCold.message(), "Furnace is not active. Ignition required.");
    assert_eq!(
        KilnError::InsufficientPressure.message(),
        "Insufficient pressure for permanent fusion. Minimum: 90 PSI"
    );
    assert_eq!(
        KilnError::ThermalDeficiency.message(),
        "Thermal energy below required sintering threshold."
    );
    assert_eq!(
        KilnError::ThermalRunawayRisk.message(),
        "Safety protocol engaged: Risk of thermal runaway. Max temp exceeded."
    );
    assert_eq!(
        KilnError::ContaminatedFeedstock.message(),
        "Raw data input contains volatile impurities."
    );
    assert_eq!(KilnError::UnauthorizedAccess.message(), "Unauthorized access. Authority mismatch.");
    assert_eq!(
        KilnError::CapacityExceeded.message(),
        "Furnace capacity exceeded. Cool down required."
    );
}

#[test]
fn keys_compare_by_their_bytes() {
    assert!(same_key(&AUTHORITY_A, &[0xa1; 32]));
    assert!(!same_key(&AUTHORITY_A, &AUTHORITY_B));
    for position in 0..32 {
        let mut other = AUTHORITY_A;
        other[position] = 0;
        assert!(!same_key(&AUTHORITY_A, &other));
        assert!(!same_key(&other, &AUTHORITY_A));
    }
}
