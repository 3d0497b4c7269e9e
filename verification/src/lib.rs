//! Build-time acquisition and version gating for the Cyrus SASL library.
//!
//! The crate decides how a native `libsasl2` is obtained (compiled from a
//! bundled source tree or discovered on the host), which link kind is used,
//! and whether the headers that were found describe a supported release.
//! Every decision is a function from plain values to plain values; running
//! tools and touching the file system is left to the caller.
//!
//! * [`config`] holds what a build is given and selects the strategy.
//! * [`discover`] is the search for an installed library.
//! * [`vendored`] and [`windows`] plan the build of the bundled source tree.
//! * [`version`] reads and judges the version that the headers report.
//! * [`link`] selects the link kind and writes the directives.
//! * [`resolve`] puts the end of a resolution together, and [`error`] names
//!   the ways in which a build fails.
//! * [`sasl`], [`prop`], [`md5`] and [`hmac_md5`] hold the plain data of the
//!   C interface and decode the version that a build has published.
//! * [`text`] holds the operations on text that the others share.

#![allow(non_camel_case_types, non_snake_case)]

pub mod config;
pub mod discover;
pub mod error;
pub mod hmac_md5;
pub mod link;
pub mod md5;
pub mod prop;
pub mod resolve;
pub mod sasl;
pub mod text;
pub mod vendored;
pub mod version;
pub mod windows;
