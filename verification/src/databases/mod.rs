pub mod postgres;
