pub mod cache;
pub mod error;
pub mod format;
pub mod pipeline;
pub mod s3;
pub mod text;
