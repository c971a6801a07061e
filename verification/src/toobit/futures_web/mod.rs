pub mod http;
