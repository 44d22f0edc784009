//! Supervision of one downloaded command-line tool: the argument policy, the
//! update decisions, duplicate-instance detection and the life cycle of the
//! supervised process.

pub mod args;
pub mod clock;
pub mod config;
pub mod constants;
pub mod downloader;
pub mod error;
pub mod executor;
pub mod logger;
pub mod models;
pub mod paths;
pub mod processes;
pub mod text;

pub use args::ArgumentParser;
pub use config::ConfigManager;
pub use downloader::Downloader;
pub use error::AppError;
pub use executor::Executor;
pub use logger::Logger;
