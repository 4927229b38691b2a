use vstd::prelude::*;

verus! {

/// Form with which a submission is handed in for a problem of a region.
#[derive(Debug, Clone)]
pub struct SubmitRequestForm {
    pub problem_id: i32,
    pub problem_region: String,
    pub src: String,
    pub language: String,
    pub judge_type: String,
    pub output: bool,
}

} // verus!
