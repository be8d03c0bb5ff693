pub mod command;
pub mod group;
pub mod item;
pub mod script;
pub mod search;
pub mod tags;
