pub mod book;
pub mod info;
