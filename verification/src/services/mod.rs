pub mod judge_server;
pub mod problem;
pub mod submission;
