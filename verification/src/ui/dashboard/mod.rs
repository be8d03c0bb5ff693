pub mod group;
pub mod groups;
pub mod navbar;
pub mod scripts;
