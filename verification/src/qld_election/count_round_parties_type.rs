//! A party's tally in a parties count round.
use vstd::prelude::*;

verus! {

#[derive(Clone, Debug, Default)]
pub struct Party {
    pub code: String,
    pub name: String,
    pub count: u32,
    /// The share of the vote, as the decimal text of the feed's float.
    pub percentage: String,
}

} // verus!
