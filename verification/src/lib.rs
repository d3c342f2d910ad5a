pub mod channel;
pub mod nats;
pub mod registry;
pub mod service;
