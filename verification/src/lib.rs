//! KILN: an authority-gated sintering engine.
//!
//! A furnace consumes feedstock and, when its thermal and pressure conditions
//! are met, emits an immutable, content-addressed block bound to that furnace.
//! This crate holds the validation-and-transition engine: the thermal model,
//! the feedstock checks and the furnace state machine. Storage, signatures and
//! event delivery belong to the host that calls it.
//!
//! All arithmetic is exact integer arithmetic. Temperatures are whole Kelvin;
//! the fractions inside the thermal model are carried in fixed point and
//! rounded once, at the end.

pub mod digest;
pub mod entropy;
pub mod errors;
pub mod furnace;
pub mod log_scale;
pub mod pressure_cooker;
pub mod state;
pub mod thermodynamics;

pub use errors::KilnError;
pub use furnace::{
    emergency_cooldown, ignite, sinter_batch, sinter_feedstock, status, BlockSintered, Clock,
    EmergencyCooldown, FurnaceIgnited, IgniteFurnace, SinterBatch,
};
pub use pressure_cooker::{
    calculate_optimal_pressure, prepare_feedstock, rolling_checksum, validate_purity,
    CompressionResult,
};
pub use state::{Furnace, Pubkey, SinteredBlock};
pub use thermodynamics::{calc_cooldown_rate, calc_required_heat, ThermalConfig};
