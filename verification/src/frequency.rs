//! The prescaler and auto-reload values that give a timer its frequency.

use vstd::prelude::*;

use crate::config::ValueError;

verus! {

/// The largest prescaler and auto-reload value.
pub const MAX_VALUE: u32 = 65_535;

/// A number of 0 or more, rounded down and rounded up to integers. A number beyond the range
/// of the integers stands at its end, and a negative one at 0.
#[derive(Clone, Copy, Debug, PartialEq, Eq, Structural)]
pub struct Rounded {
    pub down: u32,
    pub up: u32,
}

/// The register values for a prescaler and an auto-reload value chosen for
/// `(PSC + 1) * (ARR + 1) = timer clock / update frequency`. Each is rounded down, so that the
/// product can fall short of the ratio. It is an error if one of them is above the range of the
/// registers, by however little.
pub fn freq_vals(psc: Rounded, arr: Rounded) -> (vals: Result<(u16, u16), ValueError>)
    requires
        psc.down <= psc.up,
        arr.down <= arr.up,
    ensures
        vals is Err <==> arr.up > MAX_VALUE || psc.up > MAX_VALUE,
        vals matches Ok((p, a)) ==> p == psc.down && a == arr.down,
{
    if arr.up > MAX_VALUE || psc.up > MAX_VALUE {
        return Err(ValueError {  });
    }
    Ok((psc.down as u16, arr.down as u16))
}

} // verus!
