//! The scalar functions the worker exposes under `useragent.main`: what each
//! is called, what it returns, how it is documented, and what it computes for
//! a column of User-Agent values. A NULL input row gives a NULL output row.

use vstd::prelude::*;

pub mod fields;
pub mod parse;
pub mod version;

verus! {

/// The SQL type a scalar function returns.
#[derive(Clone, Copy, Debug, PartialEq, Eq, Structural)]
pub enum SqlType {
    /// `VARCHAR`.
    Varchar,
    /// `BOOLEAN`.
    Boolean,
    /// `STRUCT(browser VARCHAR, browser_version VARCHAR, os VARCHAR,
    /// os_version VARCHAR, device VARCHAR, brand VARCHAR, is_bot BOOLEAN)`.
    ParseStruct,
}

/// A worked example query for a scalar function.
pub struct Example {
    pub sql: String,
    pub description: String,
}

/// A desktop Chrome-on-Windows User-Agent, the input of the field examples.
pub const CHROME_WIN: &'static str = "Mozilla/5.0 (Windows NT 10.0; Win64; x64) AppleWebKit/537.36 (KHTML, like Gecko) Chrome/120.0.0.0 Safari/537.36";

} // verus!
