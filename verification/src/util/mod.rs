pub mod asset;
pub mod decimal;
pub mod error;
pub mod http;
pub mod interface;
pub mod symbol;
pub mod text;
pub mod types;
