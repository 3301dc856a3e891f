//! Failure kinds of the furnace transitions.

use vstd::prelude::*;

verus! {

/// Why a transition was refused. Every failure is scoped to the transition
/// that raised it: the furnace is left exactly as it was.
#[derive(Debug, Clone, Copy, PartialEq, Eq, Structural)]
pub enum KilnError {
    /// The operation needs an active furnace and this one is cold.
    FurnaceCold,
    /// The pressure level is below the floor for permanent fusion.
    InsufficientPressure,
    /// The furnace is cooler than the heat the batch requires.
    ThermalDeficiency,
    /// The furnace is hotter than its rated ceiling.
    ThermalRunawayRisk,
    /// The feedstock was empty or over the size ceiling.
    ContaminatedFeedstock,
    /// The caller is not the furnace's authority.
    UnauthorizedAccess,
    /// Reserved: no transition raises it yet.
    CapacityExceeded,
}

impl KilnError {
    /// The text shown to an operator for this failure.
    pub open spec fn message_text(self) -> Seq<char> {
        match self {
            KilnError::FurnaceCold => "Furnace is not active. Ignition required."@,
            KilnError::InsufficientPressure => "Insufficient pressure for permanent fusion. Minimum: 90 PSI"@,
            KilnError::ThermalDeficiency => "Thermal energy below required sintering threshold."@,
            KilnError::ThermalRunawayRisk => "Safety protocol engaged: Risk of thermal runaway. Max temp exceeded."@,
            KilnError::ContaminatedFeedstock => "Raw data input contains volatile impurities."@,
            KilnError::UnauthorizedAccess => "Unauthorized access. Authority mismatch."@,
            KilnError::CapacityExceeded => "Furnace capacity exceeded. Cool down required."@,
        }
    }

    /// Returns the operator-facing text of this failure.
    pub fn message(&self) -> (text: &'static str)
        ensures
            text@ == self.message_text(),
    {
        match self {
            KilnError::FurnaceCold => "Furnace is not active. Ignition required.",
            KilnError::InsufficientPressure => "Insufficient pressure for permanent fusion. Minimum: 90 PSI",
            KilnError::ThermalDeficiency => "Thermal energy below required sintering threshold.",
            KilnError::ThermalRunawayRisk => "Safety protocol engaged: Risk of thermal runaway. Max temp exceeded.",
            KilnError::ContaminatedFeedstock => "Raw data input contains volatile impurities.",
            KilnError::UnauthorizedAccess => "Unauthorized access. Authority mismatch.",
            KilnError::CapacityExceeded => "Furnace capacity exceeded. Cool down required.",
        }
    }
}

} // verus!
