pub mod earn;
pub mod order;
