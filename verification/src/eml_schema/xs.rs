//! XML Schema simple types used by the EML schema.
use crate::text::{parse_u32, parsed_integer};
use vstd::prelude::*;

verus! {

/// `xs:NMTOKEN`.
#[derive(Clone)]
pub struct NMTOKEN(pub String);

/// `xs:positiveInteger`.
#[derive(Clone)]
pub struct PositiveInteger(pub u32);

/// `xs:token`.
#[derive(Clone)]
pub struct Token(pub String);

/// The `u32` a text denotes, as `str::parse::<u32>` reads it.
pub open spec fn u32_of(s: Seq<char>) -> Option<int> {
    parsed_integer(s, 0, u32::MAX as int)
}

impl PositiveInteger {
    /// Reads the number a text holds; `None` where the text is no `u32`.
    pub fn from_string(value: String) -> (r: Option<PositiveInteger>)
        ensures
            match r {
                Some(p) => u32_of(value@) == Some(p.0 as int),
                None => u32_of(value@) is None,
            },
    {
        match parse_u32(value.as_str()) {
            Some(v) => Some(PositiveInteger(v)),
            None => None,
        }
    }
}

} // verus!
