pub mod account;
pub mod decoder;
pub mod event;
pub mod fetch;
pub mod filter;
pub mod instruction;
pub mod json;
pub mod message;
pub mod notification;
pub mod session;
pub mod window;
