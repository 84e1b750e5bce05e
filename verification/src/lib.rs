pub mod error;
pub mod pe;
pub mod reader;
