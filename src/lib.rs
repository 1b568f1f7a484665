//! Batch conversion of images to WebP: the verified decision logic.
//!
//! The library decides what happens to each file of a directory walk, where
//! its output goes, how it is encoded, which encoding is kept, how many jobs
//! may run at once and when a job is retried. The program around it performs
//! the file I/O and the encoding that these decisions call for.

pub mod classify;
pub mod engine;
pub mod output;
pub mod paths;
pub mod raster;
pub mod scheduler;
