//! Conversions that the protocol types share.

use vstd::prelude::*;

verus! {

/// Types that a numeric code identifies.
pub trait FromU16: Sized {
    type Err;

    fn from_u16(num: u16) -> Result<Self, Self::Err>;
}

/// Types that are read from an owned text.
pub trait FromString: Sized {
    type Err;

    fn from_string(s: String) -> Result<Self, Self::Err>;
}

} // verus!
