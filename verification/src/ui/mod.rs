pub mod app;
pub mod dashboard;
pub mod home;
pub mod types;
