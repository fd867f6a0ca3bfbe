pub mod app_error;
pub mod job_error;
pub mod user_error;
