//! The versions of this adapter and of the grid engine it was built against.
use vstd::prelude::*;

verus! {

/// The version of this adapter.
pub const ADAPTER_VERSION: &'static str = "0.1.0";

/// The version of the `a5` grid engine this adapter is built against.
pub const ENGINE_VERSION: &'static str = "0.6.2";

/// The adapter and engine versions, as one record.
#[derive(Debug, Clone, Copy)]
pub struct VersionInfo {
    pub adapter_version: &'static str,
    pub engine_version: &'static str,
}

/// The version of this adapter.
pub fn a5pg_version() -> (r: &'static str)
    ensures
        r == ADAPTER_VERSION,
{
    ADAPTER_VERSION
}

/// The adapter and engine versions; never fails.
pub fn a5pg_info() -> (r: VersionInfo)
    ensures
        r.adapter_version == ADAPTER_VERSION,
        r.engine_version == ENGINE_VERSION,
{
    VersionInfo { adapter_version: ADAPTER_VERSION, engine_version: ENGINE_VERSION }
}

} // verus!
