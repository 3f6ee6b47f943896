use vstd::prelude::*;

verus! {

/// Proof that the terminal was switched to the alternate screen and raw
/// mode; handed back when the terminal is restored.
pub struct AlternateScreen;

} // verus!
