//! Loopback audio recording: the format descriptor, the capture chunking rules,
//! the staging writer, the session state machine and the WAV encoder.
//!
//! Apart from drawing the scratch file's random name, everything here is logic
//! over plain values. Device access, threads, signals and files belong to the
//! program that drives this library.
pub mod audio;
pub mod capture;
pub mod cli;
pub mod session;
pub mod staging;
pub mod wave;
