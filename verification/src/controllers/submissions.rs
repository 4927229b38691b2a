use vstd::prelude::*;

verus! {

/// Body of the request that creates a submission.
pub struct CreateSubmissionBody {
    pub region: Option<String>,
    pub problem_id: i32,
    pub src: String,
    pub language: String,
}

/// Query of the request that lists submissions.
pub struct GetSubmissionListParams {
    pub region_filter: Option<String>,
    pub problem_id_filter: Option<i32>,
    pub user_id_filter: Option<i32>,
    pub limit: i32,
    pub offset: i32,
}

} // verus!
