//! Error taxonomy of the generator. Every failure is terminal for the one
//! declaration being processed: no routine is emitted alongside an error.

use vstd::prelude::*;
use vstd::string::StringExecFns;

verus! {

/// What went wrong during generation.
#[derive(Clone, Copy, PartialEq, Eq, Structural, Debug)]
pub enum GenerationErrorKind {
    /// The declaration is not a plain product record.
    UnsupportedKind,
    /// An annotation flagged as documentation does not carry literal text.
    MalformedAnnotation,
}

/// The diagnostic returned in place of a routine: the error kind together
/// with the name of the offending declaration, so the surrounding build
/// step can point at it.
#[derive(Clone, Debug)]
pub struct GenerationError {
    pub kind: GenerationErrorKind,
    pub declaration: String,
}

impl GenerationErrorKind {
    /// The fixed human-readable text of this error kind.
    pub fn message(&self) -> (r: String)
        ensures
            self is UnsupportedKind ==> r@ == "Unions and enums are not supported"@,
            self is MalformedAnnotation ==> r@
                == "documentation annotation does not carry literal text"@,
    {
        match self {
            GenerationErrorKind::UnsupportedKind => String::from_str(
                "Unions and enums are not supported",
            ),
            GenerationErrorKind::MalformedAnnotation => String::from_str(
                "documentation annotation does not carry literal text",
            ),
        }
    }
}

} // verus!
