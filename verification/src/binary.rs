//! The pieces of code and data that are loaded into a keep.

use vstd::prelude::*;

verus! {

/// One piece of code or data to be loaded into a keep, such as a loader stage
/// or the workload itself. Its contents are passed through unread.
#[derive(Clone, Debug, PartialEq, Eq)]
pub struct Component {
    /// The image, in whatever format the backend that loads it expects.
    pub image: Vec<u8>,
}

} // verus!
