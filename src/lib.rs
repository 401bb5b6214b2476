pub mod json;
pub mod events;
pub mod commands;
pub mod state;
pub mod transport;
pub mod driver;
pub mod timer;
