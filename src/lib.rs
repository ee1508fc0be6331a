//! A small `head`: resolves the command line into a validated configuration
//! and computes the prefix of each input that is to be printed.

pub mod cli;
pub mod config;
pub mod error;
pub mod number;
pub mod prefix;

pub use cli::get_args;
pub use config::{resolve, Config};
pub use error::{CountOption, HeadError};
pub use number::{parse_positive_int, parse_positive_int_self};
pub use prefix::{head_bytes, head_lines};
