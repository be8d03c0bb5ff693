pub mod status_bar;
