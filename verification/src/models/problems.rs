use vstd::prelude::*;

verus! {

/// An example of a problem: an input and the output that answers it.
#[derive(Debug, Clone)]
pub struct Example {
    pub input: String,
    pub output: String,
}

/// What a problem shows to its reader.
#[derive(Debug, Clone)]
pub struct ProblemContents {
    pub description: Option<String>,
    pub example_count: i32,
    pub examples: Vec<Example>,
}

/// How the submissions for a problem are judged.
///
/// The limits come in two sets: one for the languages that compile to
/// machine code, one for the others.
#[derive(Debug, Clone, Copy)]
pub struct ProblemSettings {
    pub is_spj: bool,
    pub high_performance_max_cpu_time: i32,
    pub high_performance_max_memory: i32,
    pub other_max_cpu_time: i32,
    pub other_max_memory: i32,
    pub opaque_output: bool,
    pub test_case_count: Option<i32>,
}

/// Outcome of the creation of one problem out of a batch.
#[derive(Debug, Clone)]
pub struct CreateProblemsResult {
    pub title: String,
    pub is_success: bool,
    pub id: Option<i32>,
}

} // verus!
