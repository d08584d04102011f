pub mod api;
pub mod model;
pub mod pages;
pub mod sort;
pub mod state;
pub mod text;
pub mod time;
