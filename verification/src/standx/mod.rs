pub mod futures_api;
pub mod key;
pub mod service;
