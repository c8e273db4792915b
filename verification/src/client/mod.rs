pub mod driver;
pub mod interface;
pub mod parser;
