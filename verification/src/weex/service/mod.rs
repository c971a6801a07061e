pub mod trading;
