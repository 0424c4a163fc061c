pub mod database;
pub mod models;
