//! Decision engine of a mail filter that lets every recipient keep an allow
//! list and a block list of senders.
//!
//! The crate holds the map file parser, the two map stores with their reload
//! policy, the configuration rules and the verdict of every protocol stage.
//! It performs no input or output: callers read files and clocks and hand the
//! values in.

pub mod config;
pub mod consts;
pub mod error;
pub mod ini_file;
pub mod maps;
pub mod milter;
pub mod text;
pub mod time;
