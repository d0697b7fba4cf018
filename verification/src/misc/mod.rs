pub mod ah;
