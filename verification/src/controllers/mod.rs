pub mod judge_servers;
pub mod regions;
pub mod submissions;
