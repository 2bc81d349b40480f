//! Inputs, output buffers and verified page renderers of a benchmark that
//! compares HTML template engines.
//!
//! Every engine renders the same two pages: a big table of numbers and a list
//! of teams.  The pages are stated as character sequences in `page`; the
//! engines in `engines` render them, each calling its own crate for the
//! values it interpolates where that crate offers a callable function.
use vstd::prelude::*;

pub mod bench;
pub mod cli;
pub mod data;
pub mod digest;
pub mod engines;
pub mod html;
pub mod laws;
pub mod output;
pub mod page;
pub mod rendering_laws;

pub use bench::Benchmark;
pub use data::BigTable;
pub use data::Team;
pub use data::Teams;
pub use output::Output;
