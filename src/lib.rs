pub mod agent;
pub mod error;
pub mod handles;
pub mod memory;
pub mod metadata;
pub mod name;
pub mod notify;
pub mod plugins;
pub mod xfer;
