pub mod generator;
pub mod ownership;
pub mod summary;
pub mod text;
