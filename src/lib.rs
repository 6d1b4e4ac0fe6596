//! Keeps third-party programs up to date: finds the newest version and its
//! download link on a release page or API, decides whether it replaces the
//! recorded version, and takes the program out of the downloaded archive.
pub mod archive;
pub mod config;
pub mod fetch;
pub mod fields;
pub mod gate;
pub mod hit;
pub mod json_path;
pub mod pattern;
pub mod process;
pub mod text;
