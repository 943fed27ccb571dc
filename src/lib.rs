//! Finds where the documentation of a Rust crate lives (docs.rs, the standard
//! library's site, or a copy built locally), reads a crate's version out of a
//! manifest, and decides what to do when opening the documentation fails.

pub mod crate_info;
pub mod manifest;
pub mod session;
pub mod text;

pub use crate_info::{banner, first_letter_to_upper, make_url, parse_args, Args, CrateInfo, CrateSource};
