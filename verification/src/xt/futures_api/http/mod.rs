pub mod account;
pub mod info;
pub mod trading;
