pub mod defaults;
pub mod models;
pub mod parser;
