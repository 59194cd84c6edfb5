pub mod registry;
pub mod producer;
pub mod connection;
pub mod settings;
