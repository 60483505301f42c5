//! The domain entities that the helpers read and produce.

pub mod alert;
pub mod lookup;
pub mod permission;
pub mod provider;
pub mod resource;
pub mod server;
pub mod server_builder;
pub mod target;
pub mod user;
