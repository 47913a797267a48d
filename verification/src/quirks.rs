//! Points on which historical interpreters disagree, as configuration.

use vstd::prelude::*;

verus! {

/// Toggles for the instructions whose behaviour differs between historical
/// interpreters. All toggles off is the default interpretation.
#[derive(Clone, Copy, Debug, PartialEq, Eq, Structural)]
pub struct Quirks {
    /// Shifts read the second register operand instead of the target register.
    pub shift_reads_vy: bool,
    /// Adding a register to the index register sets VF to 1 when the sum
    /// leaves the 12-bit address range and to 0 otherwise.
    pub index_add_sets_flag: bool,
    /// Sprite pixels that fall beyond the right or bottom edge reappear at the
    /// opposite edge instead of being clipped.
    pub sprite_wraps: bool,
}

impl Quirks {
    /// The configuration with every toggle off.
    pub open spec fn standard() -> Quirks {
        Quirks { shift_reads_vy: false, index_add_sets_flag: false, sprite_wraps: false }
    }

    /// Returns the default interpretation: shifts act on the target register,
    /// index addition leaves VF alone, sprites are clipped at the edges.
    pub fn new() -> (q: Quirks)
        ensures
            q == Quirks::standard(),
    {
        Quirks { shift_reads_vy: false, index_add_sets_flag: false, sprite_wraps: false }
    }
}

impl Default for Quirks {
    fn default() -> (q: Quirks)
        ensures
            q == Quirks::standard(),
    {
        Quirks::new()
    }
}

} // verus!
