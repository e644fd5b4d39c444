//! `useragent_version()` gives the worker's version string.

use vstd::prelude::*;
use vstd::string::StringExecFns;

use crate::meta::{object_tags, object_tags_spec, tags_view};
use crate::scalar::{Example, SqlType};

verus! {

/// Title of the `useragent_version` scalar.
pub const VERSION_TITLE: &'static str = "User-Agent Worker Version";

/// LLM-facing narrative of that scalar.
pub const VERSION_DOC_LLM: &'static str = "## useragent_version\n\nReturns the **semantic version string** of the running `useragent` worker binary as a `VARCHAR`.\n\n**When to use:** confirm which build of the parser (and the embedded uap-core regex database) is attached, capture provenance in audit logs, or assert a minimum version before relying on a feature.\n\n**Input:** none — this is a zero-argument scalar.\n**Output:** a version string such as `0.1.0`, taken from the crate's `CARGO_PKG_VERSION` at compile time.\n\n**Edge cases:** always returns a value; it never depends on input and never returns `NULL`.";

/// Human-facing narrative of that scalar.
pub const VERSION_DOC_MD: &'static str = "# Worker version\n\n`useragent_version()` returns the worker binary's semantic version.\n\n## Usage\n\n```sql\nSELECT useragent_version();\n-- '0.1.0'\n```\n\n## Notes\n\n- Zero-argument scalar; always non-NULL.\n- Useful for diagnostics and provenance.";

/// Search terms of that scalar, comma-separated.
pub const VERSION_KEYWORDS: &'static str = "version, useragent_version, worker version, build, semver, diagnostics";

/// The zero-argument `useragent_version` scalar.
pub struct UseragentVersion;

impl UseragentVersion {
    /// The scalar's SQL name.
    pub fn name(&self) -> (n: &'static str)
        ensures
            n@ == "useragent_version"@,
    {
        "useragent_version"
    }

    /// The one-line description of the scalar.
    pub fn description(&self) -> (d: &'static str)
        ensures
            d@ == "Returns the useragent worker version string"@,
    {
        "Returns the useragent worker version string"
    }

    /// A worked example query for the scalar.
    pub fn example(&self) -> (e: Example)
        ensures
            e.sql@ == "SELECT useragent.main.useragent_version();"@,
            e.description@ == "Return the useragent worker version string."@,
    {
        Example { sql: String::from_str("SELECT useragent.main.useragent_version();"), description: String::from_str("Return the useragent worker version string.") }
    }

    /// The standard discovery and description tags of the scalar.
    pub fn object_tags(&self) -> (tags: Vec<(String, String)>)
        ensures
            tags_view(tags@) == object_tags_spec(
                VERSION_TITLE@,
                VERSION_DOC_LLM@,
                VERSION_DOC_MD@,
                VERSION_KEYWORDS@,
                "scalar/version.rs"@,
            ),
    {
        object_tags(VERSION_TITLE, VERSION_DOC_LLM, VERSION_DOC_MD, VERSION_KEYWORDS, "scalar/version.rs")
    }

    /// The scalar's return type.
    pub fn result_type(&self) -> (t: SqlType)
        ensures
            t == SqlType::Varchar,
    {
        SqlType::Varchar
    }

    /// The scalar over a batch of `rows` rows: the version string in each.
    pub fn process_rows(&self, rows: usize, version: &str) -> (out: Vec<String>)
        ensures
            out.len() == rows,
            forall|i: int| 0 <= i < rows ==> #[trigger] out@[i]@ == version@,
    {
        let mut out: Vec<String> = Vec::new();
        let mut i: usize = 0;
        while i < rows
            invariant
                i <= rows,
                out.len() == i,
                forall|j: int| 0 <= j < i ==> #[trigger] out@[j]@ == version@,
            decreases rows - i,
        {
            out.push(String::from_str(version));
            i = i + 1;
        }
        out
    }
}

} // verus!
