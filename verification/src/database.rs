//! Records kept beside the tables.
use vstd::prelude::*;

verus! {

/// Links an election to its contests, by their identifiers.
pub struct ElectionContests<'a> {
    pub election: &'a str,
    pub contests: &'a str,
}

} // verus!
