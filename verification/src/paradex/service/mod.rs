pub mod info;
pub mod trading;
