pub mod users;
