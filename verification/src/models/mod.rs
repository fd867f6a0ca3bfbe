pub mod jobs;
pub mod users;
