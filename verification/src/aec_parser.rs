//! The AEC media feed documents: candidate lists (EML 230), election events
//! (EML 110), polling districts, and results.
use vstd::prelude::*;

pub mod candidate;
pub mod event;
pub mod polling;
pub mod results;

verus! {

/// The address of an electoral authority; the feeds' addresses are not read.
#[derive(Clone, Copy)]
pub struct AuthorityAddressStructure;

impl Default for AuthorityAddressStructure {
    fn default() -> (r: AuthorityAddressStructure) {
        AuthorityAddressStructure
    }
}

} // verus!
