pub mod date;
pub mod anitable;
pub mod types;
pub mod v1;
pub mod v2;
pub mod viewer;
