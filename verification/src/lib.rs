//! Configuration core of a yt-dlp based video downloader.
//!
//! The library holds what a downloader is configured with (binary
//! locations, output directory, yt-dlp arguments, user agent, timeout,
//! proxy and authentication of the extractors) and the rules by which the
//! configuration changes, each stated as a contract over a mathematical view.
pub mod binaries;
pub mod cancel;
pub mod downloader;
pub mod executor;
pub mod extractor;
pub mod laws;
pub mod libraries;
pub mod proxy;
pub mod text;
pub mod timeout;
