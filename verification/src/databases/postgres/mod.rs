pub mod model;
pub mod rules;
