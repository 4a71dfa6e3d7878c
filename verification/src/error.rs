use vstd::prelude::*;

use crate::bus::BusFault;

verus! {

/// Errors reported by the driver.
///
/// A transport failure is reported uniformly as `I2c`; the
/// transport-specific cause is not preserved.
#[derive(Clone, Copy, Debug, PartialEq, Eq, Structural)]
pub enum Error {
    /// The two-wire bus transport reported a failure.
    I2c,
    /// An argument was outside its documented legal range.
    InvalidArg,
}

impl From<BusFault> for Error {
    /// Every transport failure becomes [`Error::I2c`].
    fn from(value: BusFault) -> Error {
        Error::I2c
    }
}

impl vstd::std_specs::convert::FromSpecImpl<BusFault> for Error {
    open spec fn obeys_from_spec() -> bool {
        true
    }

    open spec fn from_spec(value: BusFault) -> Error {
        Error::I2c
    }
}

} // verus!
