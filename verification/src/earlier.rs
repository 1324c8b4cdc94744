//! Readings of the monotonic clock that lie behind.

use vstd::prelude::*;

use crate::timer::Reading;

verus! {

/// A reading that the next one is no less than, if there is one. It is kept to be
/// compared with and cannot be had back, so that it never stands in for a reading
/// of the present.
pub struct Earlier {
    reading: Option<Reading>,
}

impl Earlier {
    /// The reading that lies behind, if there is one.
    pub closed spec fn reading(self) -> Option<Reading> {
        self.reading
    }

    /// Keeps a reading as one that lies behind.
    pub fn new(reading: Option<Reading>) -> (earlier: Self)
        ensures
            earlier.reading() == reading,
    {
        Earlier { reading }
    }
}

} // verus!
