pub mod judge_servers;
pub mod languages;
pub mod problems;
pub mod submissions;
pub mod users;
