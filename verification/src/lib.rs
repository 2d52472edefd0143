pub mod api;
pub mod config;
pub mod json;
pub mod life;
pub mod life_zones;
pub mod replies;
pub mod requests;
pub mod terminal;
pub mod text;
pub mod tools;
pub mod types;
