pub mod dashboard;
pub mod home;
pub mod settings;
pub mod task;
