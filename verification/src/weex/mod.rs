pub mod futures_api;
pub mod service;
pub mod symnol;
