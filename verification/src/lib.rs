//! Finds the WebView2 runtime installed on a machine, works out where the matching
//! Microsoft Edge WebDriver archive lives, and takes the driver out of the archive.
//!
//! Everything here works on plain values. Running the registry query, talking to the
//! network and writing the driver to disk are left to the caller, who hands the
//! outcome of each back in.

pub mod error;
pub mod text;
pub mod platform;
pub mod install;
pub mod version;
pub mod lookup;
pub mod locator;
pub mod fetch;
pub mod archive;
pub mod scan;
pub mod manifest;
pub mod pipeline;
pub mod listing;
