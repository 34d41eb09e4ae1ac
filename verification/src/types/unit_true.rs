use vstd::prelude::*;

verus! {

/// The result of a request that has nothing to report but its success.
#[derive(Debug, Clone, Copy, PartialEq, Eq, Hash)]
pub struct True;

} // verus!
