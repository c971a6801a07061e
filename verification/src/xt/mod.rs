pub mod futures_api;
pub mod response;
pub mod service;
pub mod spot_api;
pub mod symnol;
