//! Watches camera feeds of a running 3D print, has each frame classified,
//! tells the operator of failures and pauses the print after repeated ones.
//!
//! This library holds the decisions of that loop: which source to fetch
//! from and when to give up, which detections count, when to pause, and
//! what each notification says. Fetching, classifying, pausing and sending
//! are done by its caller.

pub mod alerts;
pub mod config;
pub mod detector;
pub mod error;
pub mod image_fetcher;
pub mod image_ops;
pub mod monitor;
pub mod printer;
pub mod rendering;
pub mod text;

pub use alerts::AlertService;
pub use config::Config;
pub use detector::{Detection, FailureDetector};
pub use error::PrintGuardianError;
pub use image_fetcher::ImageFetcher;
pub use printer::PrinterService;
