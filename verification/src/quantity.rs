/*!
Dimensional values: an opaque [`Scalar`] magnitude paired with a [`Unit`].
*/

use vstd::prelude::*;

use crate::unit::Unit;

verus! {

/// The magnitude of a dimensional value, carried as the 64-bit pattern of an
/// IEEE-754 double-precision number.
///
/// The library never interprets the bits: all of its reasoning is about
/// units, and magnitudes are only selected, stored and handed back
/// unchanged. The embedding layer converts between native doubles and their
/// bit patterns at the boundary and performs all magnitude arithmetic there.
/// Equality on `Scalar` is therefore bit-pattern identity: two equal scalars
/// stand for the very same double.
#[derive(Debug, Clone, Copy, PartialEq, Eq, Structural)]
pub struct Scalar {
    /// The bit pattern of the IEEE-754 double this scalar stands for.
    pub bits: u64,
}

impl Scalar {
    /// The scalar whose bit pattern is all zeroes, which is how an IEEE-754
    /// double encodes positive zero.
    pub open spec fn spec_zero() -> Scalar {
        Scalar { bits: 0 }
    }

    /// Returns the zero scalar.
    pub fn zero() -> (r: Scalar)
        ensures
            r == Scalar::spec_zero(),
    {
        Scalar { bits: 0 }
    }
}

/// A dimensional value: a [`Scalar`] magnitude together with the [`Unit`] it
/// is measured in. Plain data, copied freely and never mutated in place.
#[derive(Debug, Clone, Copy, PartialEq, Eq, Structural)]
pub struct Quantity {
    /// The magnitude of the value.
    pub value: Scalar,
    /// The unit the magnitude is measured in.
    pub unit: Unit,
}

impl Quantity {
    /// A quantity is well formed when its unit is.
    pub open spec fn wf(self) -> bool {
        self.unit.wf()
    }

    /// Creates a new dimensional value from a magnitude and a unit.
    pub fn new(value: Scalar, unit: Unit) -> (q: Quantity)
        ensures
            q.value == value,
            q.unit == unit,
    {
        Quantity { value, unit }
    }
}

} // verus!
