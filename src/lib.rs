use vstd::prelude::*;

pub mod app;
pub mod config;
pub mod error;
pub mod util;
pub mod version;

pub use version::Version;

verus! {

} // verus!
