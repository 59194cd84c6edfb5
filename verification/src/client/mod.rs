pub mod connect;
pub mod events;
pub mod fswatcher;
pub mod settings;
