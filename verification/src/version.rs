//! Runtime versions: the closed set of supported runtime generations and
//! their canonical version tags used for discovery.

use vstd::prelude::*;
use crate::wide::{encode_wide_nul, wide_nul};

verus! {

/// The managed-runtime generations the library knows how to request.
#[derive(Debug, Clone, Copy, PartialEq, Eq, Structural)]
pub enum RuntimeVersion {
    /// The 2.0 runtime generation.
    V2,
    /// The 3.0 runtime generation.
    V3,
    /// The 4.0 runtime generation.
    V4,
    /// A tag no installed runtime answers to; discovery always fails on it.
    UNKNOWN,
}

/// The canonical version tag of each generation.
pub open spec fn version_chars(v: RuntimeVersion) -> Seq<char> {
    match v {
        RuntimeVersion::V2 => "v2.0.50727"@,
        RuntimeVersion::V3 => "v3.0"@,
        RuntimeVersion::V4 => "v4.0.30319"@,
        RuntimeVersion::UNKNOWN => "UNKNOWN"@,
    }
}

impl RuntimeVersion {
    /// The canonical version tag as text.
    pub fn version_str(self) -> (r: &'static str)
        ensures
            r@ == version_chars(self),
    {
        match self {
            RuntimeVersion::V2 => "v2.0.50727",
            RuntimeVersion::V3 => "v3.0",
            RuntimeVersion::V4 => "v4.0.30319",
            RuntimeVersion::UNKNOWN => "UNKNOWN",
        }
    }

    /// The canonical version tag as zero-terminated UTF-16 code units, the
    /// shape the runtime's discovery call takes.
    pub fn to_vec(self) -> (r: Vec<u16>)
        ensures
            r@ == wide_nul(version_chars(self)),
    {
        encode_wide_nul(self.version_str())
    }
}

} // verus!
