//! Parsing of HTTP User-Agent strings into browser, operating system and
//! device, over the uap-core regex database, and the scalar functions of the
//! `useragent` worker built on it.
//!
//! - [`useragent`]: the parser handle, bounding of the input, normalization of
//!   what uap-core reports, and the per-field accessors.
//! - [`scalar`]: the worker's scalar functions (names, documentation, return
//!   types and what each gives for a column of inputs).
//! - [`meta`]: the discovery and description tags every function carries.
//! - [`laws`]: what holds of every parse.
//! - [`uap`] and [`json`]: the boundaries with the `uaparser` and `serde_json`
//!   crates.
//! - [`regexes`]: the uap-core database itself.
//! - [`text`]: white space, trimming and fixed words.

pub mod json;
pub mod laws;
pub mod meta;
pub mod regexes;
pub mod scalar;
pub mod text;
pub mod uap;
pub mod useragent;
