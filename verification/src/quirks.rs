//! The points on which interpreters of this instruction set have differed,
//! each as a switch of its own.

use vstd::prelude::*;

verus! {

/// Behavioural switches, fixed when a machine is built.
#[derive(Debug, Clone, Copy, PartialEq, Eq, Structural)]
pub struct Quirks {
    /// 8XY6 and 8XYE copy V[Y] into V[X] before shifting.
    pub shift_uses_vy: bool,
    /// BNNN adds V[X], X being the second nibble, instead of V[0].
    pub jump_uses_vx: bool,
    /// FX55 and FX65 leave I advanced by X + 1.
    pub memory_advances_index: bool,
    /// FX1E writes into V[F] whether I left the addressable range.
    pub index_overflow_flag: bool,
}

impl Quirks {
    /// The value that `legacy` returns.
    pub open spec fn spec_legacy() -> Quirks {
        Quirks {
            shift_uses_vy: true,
            jump_uses_vx: false,
            memory_advances_index: true,
            index_overflow_flag: true,
        }
    }

    /// The value that `modern` returns.
    pub open spec fn spec_modern() -> Quirks {
        Quirks {
            shift_uses_vy: false,
            jump_uses_vx: true,
            memory_advances_index: false,
            index_overflow_flag: false,
        }
    }

    /// Every switch in its older position: shifts read V[Y], BNNN adds V[0],
    /// FX55 and FX65 advance I, and FX1E reports overflow in V[F].
    #[verifier::when_used_as_spec(spec_legacy)]
    pub fn legacy() -> (q: Quirks)
        ensures
            q == Self::spec_legacy(),
    {
        Quirks {
            shift_uses_vy: true,
            jump_uses_vx: false,
            memory_advances_index: true,
            index_overflow_flag: true,
        }
    }

    /// Every switch in its newer position: shifts work in place, BNNN adds
    /// V[X], FX55 and FX65 leave I alone, and FX1E leaves V[F] alone.
    #[verifier::when_used_as_spec(spec_modern)]
    pub fn modern() -> (q: Quirks)
        ensures
            q == Self::spec_modern(),
    {
        Quirks {
            shift_uses_vy: false,
            jump_uses_vx: true,
            memory_advances_index: false,
            index_overflow_flag: false,
        }
    }
}

} // verus!
