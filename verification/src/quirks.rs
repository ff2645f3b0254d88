use vstd::prelude::*;

use crate::errors::ConfigError;

verus! {

/// Behavioral variants attested among historical implementations of the
/// architecture. Both choices are fixed at construction time and never
/// change while the machine runs.
#[derive(Clone, Copy, Debug, PartialEq, Eq, Structural)]
pub struct Quirks {
    /// SHR/SHL take their operand from Vy (the original behavior) instead
    /// of from Vx (the common later behavior).
    pub shift_reads_vy: bool,
    /// `LD [I],Vx` and `LD Vx,[I]` advance I by x+1 afterward.
    pub advance_i: bool,
}

impl Quirks {
    /// Builds a configuration from two explicit choices. Every combination
    /// of the two named flags is a recognized one.
    pub fn new(shift_reads_vy: bool, advance_i: bool) -> (q: Quirks)
        ensures
            q.shift_reads_vy == shift_reads_vy,
            q.advance_i == advance_i,
    {
        Quirks { shift_reads_vy, advance_i }
    }

    /// Decodes a configuration bitmask: bit 0 selects the shift operand
    /// source, bit 1 the I-advance behavior. A mask with any undefined bit
    /// set is not a recognized combination and fails construction.
    pub fn from_bits(bits: u8) -> (r: Result<Quirks, ConfigError>)
        ensures
            bits < 4 ==> (r matches Ok(q) && q.shift_reads_vy == (bits % 2 == 1)
                && q.advance_i == (bits / 2 == 1)),
            bits >= 4 ==> r == Result::<Quirks, ConfigError>::Err(
                ConfigError::InvalidQuirkCombination,
            ),
    {
        if bits < 4 {
            Ok(Quirks { shift_reads_vy: bits % 2 == 1, advance_i: bits / 2 == 1 })
        } else {
            Err(ConfigError::InvalidQuirkCombination)
        }
    }
}

impl Default for Quirks {
    /// The common later behavior: shifts read Vx and I does not advance.
    fn default() -> (q: Quirks)
        ensures
            !q.shift_reads_vy,
            !q.advance_i,
    {
        Quirks { shift_reads_vy: false, advance_i: false }
    }
}

} // verus!
