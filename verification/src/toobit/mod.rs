pub mod futures_api;
pub mod futures_web;
pub mod service;
