//! A frog that speaks: the rules behind a small command-line program that shows an
//! ASCII-art frog uttering a tip.

pub mod errors;
pub mod pond;
pub mod private_path;
pub mod program;
pub mod reservoir;
pub mod speech;
pub mod tips;
