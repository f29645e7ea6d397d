//! Decides whether a prebuilt command-line tool must be downloaded or whether a
//! compatible copy already sits in the local artifact cache, and where to fetch it.

mod text;
pub mod target;
pub mod url;
pub mod cache;
pub mod install;
pub mod version;
