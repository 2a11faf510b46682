pub mod config;
pub mod logger;
pub mod sys;
pub mod text;
