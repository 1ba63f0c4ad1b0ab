pub mod config;
pub mod error;
pub mod memory;
pub mod product;
pub mod product_trait;
pub mod routes;
