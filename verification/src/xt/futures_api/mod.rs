pub mod http;
pub mod types;
