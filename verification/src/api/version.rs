//! API versioning for the engine contract.

use vstd::prelude::*;

verus! {

/// Current API version identifier.
/// Breaking changes require bumping this version.
#[derive(Debug, Clone, Copy, PartialEq, Eq, Structural)]
pub enum ApiVersion {
    /// Version 0 - initial stable contract
    V0,
}

impl ApiVersion {
    /// The name of this version on the wire.
    pub fn as_str(&self) -> (s: &'static str)
        ensures
            s@ == "v0"@,
    {
        "v0"
    }
}

impl Default for ApiVersion {
    fn default() -> (v: ApiVersion)
        ensures
            v == ApiVersion::V0,
    {
        ApiVersion::V0
    }
}

} // verus!
