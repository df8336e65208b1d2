use vstd::prelude::*;

verus! {

/// The structural failures that decoding and conversion report.
#[derive(Debug, Clone, Copy, PartialEq, Eq, Structural)]
pub enum Error {
    /// The natural-number decoder was handed no bytes at all.
    InvalidNaturalBytes,
    /// A primitive application has the wrong name, or too few arguments.
    InvalidPrimitiveApplication,
    /// A typed value is not a member of the narrower union asked for.
    InvalidMichelsonInstruction,
    /// A tree nests deeper than the limit the caller allowed.
    DepthLimitExceeded,
}

} // verus!
