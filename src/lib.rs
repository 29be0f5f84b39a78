pub mod channel;
pub mod decimal;
pub mod error;
pub mod model;
pub mod pipeline;
pub mod progress;
pub mod transcode;
pub mod transfer;
