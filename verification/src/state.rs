//! The records the engine reads and writes: the furnace and the blocks it
//! sinters.

use vstd::prelude::*;

verus! {

/// A 32-byte identity or address, as the host hands it over.
pub type Pubkey = [u8; 32];

/// The safety ceiling every furnace is rated for, in Kelvin.
pub const MAX_RATED_TEMP: u64 = 5000;

/// The furnace: the thermal processing unit of one authority.
#[derive(Debug, Clone, Copy, PartialEq, Eq)]
pub struct Furnace {
    /// The authority who controls this furnace.
    pub authority: Pubkey,
    /// Current operating temperature in Kelvin.
    pub current_temp: u64,
    /// Maximum rated temperature (safety ceiling).
    pub max_rated_temp: u64,
    /// Total number of blocks sintered by this furnace since its ignition.
    pub total_sintered_blocks: u64,
    /// Whether the furnace is currently active.
    pub is_active: bool,
    /// Bump seed of the furnace's derived address.
    pub bump: u8,
    /// Reserved for future upgrades.
    pub _reserved: [u8; 64],
}

impl Furnace {
    /// Size of a stored furnace record in bytes: 32 + 8 + 8 + 8 + 1 + 1 + 64.
    pub const LEN: usize = 122;

    /// What holds of every furnace the transitions produce: it is rated for
    /// `MAX_RATED_TEMP`, and while it is cold its temperature is zero.
    pub open spec fn well_formed(self) -> bool {
        &&& self.max_rated_temp == MAX_RATED_TEMP
        &&& !self.is_active ==> self.current_temp == 0
    }
}

/// A permanently sintered data block: written once, never changed.
#[derive(Debug, Clone, Copy, PartialEq, Eq)]
pub struct SinteredBlock {
    /// Hash of the original raw data.
    pub data_hash: [u8; 32],
    /// Unix timestamp when sintering completed.
    pub sintered_at: i64,
    /// Pressure level applied (0-255 scale, at least 90 for a sintered block).
    pub pressure_applied: u8,
    /// Temperature at the point of fusion (Kelvin).
    pub final_temperature: u64,
    /// Address of the furnace that created this block.
    pub furnace: Pubkey,
    /// Block sequence number within the furnace.
    pub sequence_id: u64,
}

impl SinteredBlock {
    /// Size of a stored block record in bytes: 32 + 8 + 1 + 8 + 32 + 8.
    pub const LEN: usize = 89;
}

/// Whether two keys hold the same 32 bytes.
pub fn same_key(a: &Pubkey, b: &Pubkey) -> (same: bool)
    ensures
        same == (a@ == b@),
        same == (*a == *b),
{
    let mut i: usize = 0;
    while i < 32
        invariant
            i <= 32,
            forall|j: int| 0 <= j < i ==> a[j] == b[j],
        decreases 32 - i,
    {
        if a[i] != b[i] {
            return false;
        }
        i = i + 1;
    }
    assert(*a =~= *b);
    true
}

} // verus!
