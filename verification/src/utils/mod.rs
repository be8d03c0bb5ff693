pub mod datetime;
pub mod formatting;
pub mod text;
