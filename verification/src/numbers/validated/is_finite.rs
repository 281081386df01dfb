use vstd::prelude::*;

verus! {

/// The check that a floating-point value is finite.
///
/// Floating-point values are outside this library, so the check itself is
/// carried out where those values are handled; this marker names it.
pub struct IsFinite;

} // verus!
