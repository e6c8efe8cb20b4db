use vstd::prelude::*;

use vstd::string::StringSliceAdditionalSpecFns;

use crate::hash::{fx_hash32, hash32_of};

verus! {

/// Identifier of a failure point: a 32-bit key derived from the point's name.
#[derive(Copy, Clone, Debug, PartialEq, Eq, Structural)]
pub struct FailurePointId(pub u32);

impl FailurePointId {
    /// The identifier of the failure point declared under `name`: the 32-bit
    /// FxHash of the name's bytes, so the same name always gives the same id.
    pub fn of_name(name: &str) -> (r: FailurePointId)
        ensures
            r.0 == fx_hash32(name.spec_bytes()),
    {
        FailurePointId(hash32_of(name.as_bytes()))
    }
}

/// Where an instrumented call occurs: its identifier and source location.
///
/// Handed by value to every decision and to both observability callbacks.
#[derive(Copy, Clone, Debug)]
pub struct FailurePoint {
    pub id: FailurePointId,
    pub function: &'static str,
    pub file: &'static str,
    pub line: u32,
    pub column: u32,
}

} // verus!
