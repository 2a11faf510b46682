pub mod codes;
pub mod keyboard;
pub mod proc;
pub mod touchpad;
pub mod utils;
