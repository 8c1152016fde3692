//! Mirrors an HLS stream: reads playlists, finds what they refer to, and
//! rewrites them so that every reference names a local file.
//!
//! `playlist` reads and rewrites playlist texts, `resolver` turns references
//! into addresses and file names, and `hls_copier` decides, step by step, what
//! a run fetches and writes. Fetching and writing themselves are left to the
//! program that drives a run.

pub mod attribute;
pub mod cli;
pub mod error;
pub mod hls_copier;
pub mod playlist;
pub mod resolver;
pub mod text;

pub use cli::Args;
pub use error::HlsError;
pub use hls_copier::HlsCopier;
pub use playlist::Playlist;
