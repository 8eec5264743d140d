pub mod timezone_manager;
pub mod view_resolver;
pub mod types;
pub mod error;
pub mod config;
pub mod schema;

pub use config::LinearConfig;
