//! `ua_parse(ua)` gives `STRUCT(browser VARCHAR, browser_version VARCHAR,
//! os VARCHAR, os_version VARCHAR, device VARCHAR, brand VARCHAR,
//! is_bot BOOLEAN)`: every field from a single pass over the User-Agent. A NULL
//! input gives a NULL struct row; an unparseable one gives a row whose string
//! fields are NULL and whose `is_bot` is false.

use vstd::prelude::*;
use vstd::string::StringExecFns;

use crate::meta::{object_tags, object_tags_spec, tags_view};
use crate::scalar::{Example, SqlType};
use crate::useragent::{parse, parse_spec, Parsed, ParsedView, UaParser};

verus! {

/// Title of the `ua_parse` scalar.
pub const PARSE_TITLE: &'static str = "Parse User-Agent Fields";

/// LLM-facing narrative of that scalar.
pub const PARSE_DOC_LLM: &'static str = "## ua_parse\n\nParses an HTTP `User-Agent` string into a **single `STRUCT`** containing every component at once, in one pass over the input.\n\n**Returned struct fields:**\n\n- `browser` (VARCHAR) — client family\n- `browser_version` (VARCHAR) — dotted client version\n- `os` (VARCHAR) — operating-system family\n- `os_version` (VARCHAR) — dotted OS version\n- `device` (VARCHAR) — device family/model\n- `brand` (VARCHAR) — device brand/manufacturer\n- `is_bot` (BOOLEAN) — spider/crawler flag\n\n**When to use:** prefer `ua_parse` over calling the individual `ua_*` accessors when you need several fields, since it parses the string only once. Project with `(ua_parse(ua)).*` or pick fields like `(ua_parse(ua)).os`.\n\n**Edge cases:** `NULL`, empty, or unparseable input yields a `NULL` struct row. For bots, `device` and `brand` are suppressed to `NULL` while `is_bot` is `TRUE`. Unidentified individual fields are `NULL` rather than `'Other'`.";

/// Human-facing narrative of that scalar.
pub const PARSE_DOC_MD: &'static str = "# Parse all fields\n\n`ua_parse(ua)` returns a STRUCT with every parsed User-Agent field in one pass.\n\n## Usage\n\n```sql\n-- Explode all fields\nSELECT (ua_parse(ua)).* FROM hits;\n\n-- Pick a couple\nSELECT (ua_parse(ua)).browser, (ua_parse(ua)).os FROM hits;\n```\n\n## Struct shape\n\n`STRUCT(browser, browser_version, os, os_version, device, brand, is_bot)`\n\n## Notes\n\n- More efficient than calling each `ua_*` accessor separately.\n- NULL/unparseable input → NULL row.";

/// Search terms of that scalar, comma-separated.
pub const PARSE_KEYWORDS: &'static str = "ua_parse, parse user-agent, user agent struct, browser, os, device, brand, is_bot, one-shot parse, struct";

/// Runnable, catalog-qualified examples. Each query is self-contained and can
/// be run again against an attached `useragent` worker; no expected results
/// are given, since uap-core version numbers drift across releases.
pub const EXECUTABLE_EXAMPLES: &'static str = r#"[
  {
    "description": "Extract the browser family from a desktop Chrome User-Agent.",
    "sql": "SELECT useragent.main.ua_browser('Mozilla/5.0 (Windows NT 10.0; Win64; x64) AppleWebKit/537.36 (KHTML, like Gecko) Chrome/120.0.0.0 Safari/537.36') AS browser"
  },
  {
    "description": "Extract the operating system from an iPhone Safari User-Agent.",
    "sql": "SELECT useragent.main.ua_os('Mozilla/5.0 (iPhone; CPU iPhone OS 17_0 like Mac OS X) AppleWebKit/605.1.15 (KHTML, like Gecko) Version/17.0 Mobile/15E148 Safari/604.1') AS os"
  },
  {
    "description": "Detect that the Googlebot crawler is a bot.",
    "sql": "SELECT useragent.main.ua_is_bot('Mozilla/5.0 (compatible; Googlebot/2.1; +http://www.google.com/bot.html)') AS is_bot"
  },
  {
    "description": "Parse every field of a Chrome-on-Windows User-Agent at once.",
    "sql": "SELECT useragent.main.ua_parse('Mozilla/5.0 (Windows NT 10.0; Win64; x64) AppleWebKit/537.36 (KHTML, like Gecko) Chrome/120.0.0.0 Safari/537.36') AS parsed"
  },
  {
    "description": "Report the running worker version string.",
    "sql": "SELECT useragent.main.useragent_version() AS version"
  }
]"#;

/// What `ua_parse` gives for one row: NULL for NULL, else the row's parse.
pub open spec fn parse_cell(db: Seq<char>, row: Option<Seq<char>>) -> Option<ParsedView> {
    match row {
        Some(ua) => Some(parse_spec(db, ua)),
        None => None,
    }
}

/// What `ua_parse` gives for each row of a `ua` column.
pub open spec fn parse_column(db: Seq<char>, rows: Seq<Option<Seq<char>>>) -> Seq<Option<ParsedView>> {
    rows.map_values(|row: Option<Seq<char>>| parse_cell(db, row))
}

/// The mathematical value of a column of optional parse results.
pub open spec fn parsed_rows_view(rows: Seq<Option<Parsed>>) -> Seq<Option<ParsedView>> {
    rows.map_values(
        |row: Option<Parsed>|
            match row {
                Some(p) => Some(p@),
                None => None,
            },
    )
}

/// The one-shot `ua_parse` scalar.
pub struct UaParse;

impl UaParse {
    /// The scalar's SQL name.
    pub fn name(&self) -> (n: &'static str)
        ensures
            n@ == "ua_parse"@,
    {
        "ua_parse"
    }

    /// The one-line description of the scalar.
    pub fn description(&self) -> (d: &'static str)
        ensures
            d@ == "Parse a User-Agent into STRUCT(browser, browser_version, os, os_version, device, brand, is_bot); NULL/unparseable → NULL row"@,
    {
        "Parse a User-Agent into STRUCT(browser, browser_version, os, os_version, device, brand, is_bot); NULL/unparseable → NULL row"
    }

    /// A worked example query for the scalar.
    pub fn example(&self) -> (e: Example)
        ensures
            e.sql@ == "SELECT useragent.main.ua_parse('Mozilla/5.0 (iPhone; CPU iPhone OS 17_0 like Mac OS X) AppleWebKit/605.1.15 (KHTML, like Gecko) Version/17.0 Mobile/15E148 Safari/604.1') AS parsed;"@,
            e.description@ == "Parse an iPhone Safari User-Agent into all of its fields at once (browser, OS, device, brand, is_bot)."@,
    {
        Example { sql: String::from_str("SELECT useragent.main.ua_parse('Mozilla/5.0 (iPhone; CPU iPhone OS 17_0 like Mac OS X) AppleWebKit/605.1.15 (KHTML, like Gecko) Version/17.0 Mobile/15E148 Safari/604.1') AS parsed;"), description: String::from_str("Parse an iPhone Safari User-Agent into all of its fields at once (browser, OS, device, brand, is_bot).") }
    }

    /// The standard discovery and description tags of the scalar, followed by
    /// its runnable examples under `vgi.executable_examples`.
    pub fn object_tags(&self) -> (tags: Vec<(String, String)>)
        ensures
            tags_view(tags@) == object_tags_spec(
                PARSE_TITLE@,
                PARSE_DOC_LLM@,
                PARSE_DOC_MD@,
                PARSE_KEYWORDS@,
                "scalar/parse.rs"@,
            ).push(("vgi.executable_examples"@, EXECUTABLE_EXAMPLES@)),
    {
        let mut tags = object_tags(PARSE_TITLE, PARSE_DOC_LLM, PARSE_DOC_MD, PARSE_KEYWORDS, "scalar/parse.rs");
        let ghost before = tags@;
        tags.push((String::from_str("vgi.executable_examples"), String::from_str(EXECUTABLE_EXAMPLES)));
        assert(tags@ =~= before.push(tags@.last()));
        assert(tags_view(tags@) =~= tags_view(before).push(("vgi.executable_examples"@, EXECUTABLE_EXAMPLES@)));
        tags
    }

    /// The scalar's return type.
    pub fn result_type(&self) -> (t: SqlType)
        ensures
            t == SqlType::ParseStruct,
    {
        SqlType::ParseStruct
    }

    /// The scalar over a column: row by row, NULL stays NULL and a User-Agent
    /// gives its parse.
    pub fn process_rows(&self, parser: &UaParser, rows: &[Option<&str>]) -> (out: Vec<Option<Parsed>>)
        ensures
            parsed_rows_view(out@) == parse_column(parser@, rows.deep_view()),
            out.len() == rows.len(),
            forall|i: int|
                0 <= i < rows.len() ==> (#[trigger] out@[i] is None <==> rows.deep_view()[i] is None),
            forall|i: int|
                0 <= i < rows.len() && #[trigger] out@[i] is Some ==> out@[i]->0@ == parse_spec(
                    parser@,
                    rows.deep_view()[i]->0,
                ),
    {
        let mut out: Vec<Option<Parsed>> = Vec::new();
        let mut i: usize = 0;
        while i < rows.len()
            invariant
                i <= rows.len(),
                parsed_rows_view(out@) == parse_column(parser@, rows.deep_view().take(i as int)),
            decreases rows.len() - i,
        {
            let ghost before = out@;
            let ghost row = rows.deep_view()[i as int];
            let v = match rows[i] {
                Some(ua) => Some(parse(parser, ua)),
                None => None,
            };
            assert((match v {
                Some(p) => Some(p@),
                None => None,
            }) == parse_cell(parser@, row));
            out.push(v);
            assert(out@ =~= before.push(v));
            assert(rows.deep_view().take(i + 1) =~= rows.deep_view().take(i as int).push(row));
            assert(parsed_rows_view(out@) =~= parsed_rows_view(before).push(parse_cell(parser@, row)));
            assert(parse_column(parser@, rows.deep_view().take(i + 1)) =~= parse_column(
                parser@,
                rows.deep_view().take(i as int),
            ).push(parse_cell(parser@, row)));
            i = i + 1;
        }
        assert(rows.deep_view().take(i as int) =~= rows.deep_view());
        assert forall|k: int| 0 <= k < rows.len() implies (#[trigger] out@[k] is None
            <==> rows.deep_view()[k] is None) && (out@[k] is Some ==> out@[k]->0@ == parse_spec(
            parser@,
            rows.deep_view()[k]->0,
        )) by {
            assert(parsed_rows_view(out@)[k] == parse_column(parser@, rows.deep_view())[k]);
        }
        out
    }
}

} // verus!
