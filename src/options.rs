use vstd::prelude::*;

verus! {

/// A revision of the Vega-Lite grammar that a specification is read against.
#[derive(Clone, Copy, Debug, PartialEq, Eq, Structural)]
pub enum GrammarVersion {
    /// Vega-Lite 5.5.
    V5_5,
}

impl GrammarVersion {
    /// The latest revision that this library supports.
    pub open spec fn spec_latest() -> GrammarVersion {
        GrammarVersion::V5_5
    }

    /// The latest revision that this library supports.
    pub fn latest() -> (r: GrammarVersion)
        ensures
            r == GrammarVersion::spec_latest(),
    {
        GrammarVersion::V5_5
    }
}

/// The options of one conversion.
#[derive(Clone, Copy, Debug, PartialEq, Eq, Structural)]
pub struct ConversionOptions {
    /// The grammar revision that the specification is rendered against.
    pub vl_version: GrammarVersion,
}

impl ConversionOptions {
    /// Options that render against the given grammar revision.
    pub fn with_version(vl_version: GrammarVersion) -> (r: ConversionOptions)
        ensures
            r.vl_version == vl_version,
    {
        ConversionOptions { vl_version }
    }
}

impl Default for ConversionOptions {
    /// Every option at its default: the grammar revision is the latest supported one.
    fn default() -> (r: ConversionOptions)
        ensures
            r.vl_version == GrammarVersion::spec_latest(),
    {
        ConversionOptions { vl_version: GrammarVersion::latest() }
    }
}

} // verus!
