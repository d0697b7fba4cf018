pub mod auth;
pub mod category;
pub mod misc;
pub mod product;
