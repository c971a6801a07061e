pub mod key;
pub mod service;
