use vstd::prelude::*;

verus! {

/// Body of the request that creates a submission for a problem of a region.
pub struct CreateRegionSubmissionBody {
    pub src: String,
    pub language: String,
}

} // verus!
