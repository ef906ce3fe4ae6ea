use crate::value::Value;
use vstd::prelude::*;

verus! {

/// A use of a command that its help shows, with the value it gives.
#[derive(Debug, PartialEq, Eq)]
pub struct Example {
    pub example: &'static str,
    pub description: &'static str,
    pub result: Option<Value>,
}

} // verus!
