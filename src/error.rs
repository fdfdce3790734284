use vstd::prelude::*;

verus! {

/// The failures this layer reports.
#[derive(Debug)]
pub enum GridError {
    /// The engine rejected a coordinate or a resolution.
    Encode { message: String },
    /// An identifier failed the engine's structural decoding.
    Decode { message: String },
    /// An engine identifier above the largest signed 64-bit value.
    Overflow { value: u64 },
    /// A target resolution on the wrong side of a directional operation, or negative.
    HierarchyRange { resolution: i32, target: i32 },
    /// A resolution beyond the finest level the engine can address.
    ResolutionLimit { resolution: i32 },
    /// A flat vertex sequence of odd length, which no ring produces.
    MalformedRing { length: usize },
    /// A listing or expansion beyond what the engine lists or memory holds.
    ExpansionTooLarge { resolution: i32, target: i32 },
}

} // verus!
