pub mod accounts;
pub mod address;
pub mod authority;
pub mod codec;
pub mod compression;
pub mod error;
pub mod fetch;
pub mod instruction;
pub mod laws;
pub mod lifecycle;
pub mod permissions;
pub mod plugins;
pub mod state;
