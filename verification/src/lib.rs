//! Decision logic of a desktop video-clipping tool.
//!
//! The crate builds the command lines for an external downloader, interprets
//! what the downloader and other helper programs report, locates the programs
//! themselves, derives a device fingerprint and interprets the replies of a
//! licensing service. It starts no process and opens no connection: a host
//! program does that and hands the outcomes in.
//!
//! - [`resolver`] decides where to look for a tool and when to stop looking.
//! - [`clock`] renders offsets as clock times; [`quality`] maps quality labels
//!   to stream selectors.
//! - [`command`] assembles the downloader's argument vector.
//! - [`process`] classifies the outcome of a run.
//! - [`metadata`] reads a video's metadata from the downloader's output.
//! - [`device`] derives the device fingerprint and name.
//! - [`license`] interprets the replies of the licensing service.
//! - [`decimal`], [`scan`] and [`text`] hold what the others share.

pub mod clock;
pub mod command;
pub mod decimal;
pub mod device;
pub mod license;
pub mod metadata;
pub mod process;
pub mod quality;
pub mod resolver;
pub mod scan;
pub mod text;
