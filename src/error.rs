use vstd::prelude::*;

verus! {

/// A failed platform call, with the status code that the platform reported.
#[derive(Debug, Clone, Copy, PartialEq, Eq, Structural)]
pub struct PlatformError {
    pub code: i32,
}

} // verus!
