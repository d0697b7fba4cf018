pub mod error;
pub mod helper;
pub mod model;
pub mod picture;
pub mod rules;
