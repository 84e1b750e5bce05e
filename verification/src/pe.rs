pub mod characteristic;
pub mod header;
