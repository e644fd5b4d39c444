//! The single-field accessor scalars over a `ua VARCHAR` argument:
//! `ua_browser`, `ua_browser_version`, `ua_os`, `ua_os_version`, `ua_device`
//! and `ua_device_brand` (each `VARCHAR`), and `ua_is_bot` (`BOOLEAN`). Each
//! takes one positional argument; NULL input gives NULL output, and unknown
//! ("Other") families give NULL.

use vstd::prelude::*;
use vstd::string::StringExecFns;

use crate::meta::{object_tags, object_tags_spec, tags_view};
use crate::scalar::{Example, SqlType, CHROME_WIN};
use crate::useragent::{
    browser, browser_version, device, device_brand, is_bot, os, os_version, parse_spec, ParsedView,
    UaParser,
};

verus! {

/// Title of the `ua_browser` scalar.
pub const BROWSER_TITLE: &'static str = "Browser Family Name";

/// LLM-facing narrative of that scalar, after its `## ua_browser` heading.
pub const BROWSER_DOC_LLM_BODY: &'static str = "Extracts the **browser / client family** from an HTTP `User-Agent` header string and returns it as a `VARCHAR`.\n\n**When to use:** segment web-analytics traffic by browser, build top-browser reports, or filter rows to a specific client. Pair with `ua_browser_version` for the full client identity.\n\n**Input:** one `ua VARCHAR` column or literal (positional, arity-1).\n**Output:** the family name such as `Chrome`, `Safari`, `Firefox`, `Edge`, or `Mobile Safari`.\n\n**Edge cases:** `NULL`, empty, or unidentifiable input returns `NULL` (never the literal `'Other'`). Identification comes from the embedded uap-core regex database, so very new or obscure clients may not match.";

/// Human-facing narrative of that scalar, after the `# ` of its heading.
pub const BROWSER_DOC_MD_TEXT: &'static str = "Browser family\n\n`ua_browser(ua)` returns the browser/client family parsed from a User-Agent string.\n\n## Usage\n\n```sql\nSELECT ua_browser(ua) AS browser FROM hits;\n-- 'Chrome', 'Safari', 'Firefox', …\n```\n\n## Notes\n\n- NULL/empty/unknown input yields NULL.\n- Use `ua_browser_version` for the version component.";

/// Search terms of that scalar, comma-separated, before its name and
/// "user-agent".
pub const BROWSER_KEYWORDS_HEAD: &'static str = "browser, client, browser family, chrome, safari, firefox, edge";

/// Title of the `ua_browser_version` scalar.
pub const BROWSER_VERSION_TITLE: &'static str = "Browser Version String";

/// LLM-facing narrative of that scalar, after its `## ua_browser_version` heading.
pub const BROWSER_VERSION_DOC_LLM_BODY: &'static str = "Extracts the **browser / client version** from an HTTP `User-Agent` header and returns it as a dotted `VARCHAR` (for example `120.0.0`).\n\n**When to use:** track adoption of browser releases, gate features by minimum version, or detect outdated clients in web-analytics data.\n\n**Input:** one `ua VARCHAR` column or literal.\n**Output:** a `major.minor.patch` string assembled from the components uap-core reports; only the leading run of present components is kept.\n\n**Edge cases:** `NULL`, empty, unparseable, or version-less input returns `NULL`. Version numbers track the embedded uap-core database and can drift across releases, so prefer ranges over exact-equality comparisons.";

/// Human-facing narrative of that scalar, after the `# ` of its heading.
pub const BROWSER_VERSION_DOC_MD_TEXT: &'static str = "Browser version\n\n`ua_browser_version(ua)` returns the dotted browser version parsed from a User-Agent string.\n\n## Usage\n\n```sql\nSELECT ua_browser_version(ua) AS ver FROM hits;\n-- '120.0.0'\n```\n\n## Notes\n\n- NULL/empty/version-less input yields NULL.\n- Versions may drift with uap-core updates; compare with ranges, not exact equality.";

/// Search terms of that scalar, comma-separated, before its name and
/// "user-agent".
pub const BROWSER_VERSION_KEYWORDS_HEAD: &'static str = "browser version, client version, version number";

/// Title of the `ua_os` scalar.
pub const OS_TITLE: &'static str = "Operating System Name";

/// LLM-facing narrative of that scalar, after its `## ua_os` heading.
pub const OS_DOC_LLM_BODY: &'static str = "Extracts the **operating-system family** from an HTTP `User-Agent` header and returns it as a `VARCHAR`.\n\n**When to use:** break web traffic down by platform (Windows vs. iOS vs. Android), build OS-mix dashboards, or filter rows by platform. Pair with `ua_os_version` for the full OS identity.\n\n**Input:** one `ua VARCHAR` column or literal.\n**Output:** a family name such as `Windows`, `iOS`, `Android`, `Mac OS X`, or `Linux`.\n\n**Edge cases:** `NULL`, empty, or unidentifiable input returns `NULL` (never `'Other'`).";

/// Human-facing narrative of that scalar, after the `# ` of its heading.
pub const OS_DOC_MD_TEXT: &'static str = "Operating system\n\n`ua_os(ua)` returns the operating-system family parsed from a User-Agent string.\n\n## Usage\n\n```sql\nSELECT ua_os(ua) AS os FROM hits;\n-- 'Windows', 'iOS', 'Android', …\n```\n\n## Notes\n\n- NULL/empty/unknown input yields NULL.\n- Use `ua_os_version` for the version component.";

/// Search terms of that scalar, comma-separated, before its name and
/// "user-agent".
pub const OS_KEYWORDS_HEAD: &'static str = "os, operating system, platform, windows, ios, android, macos, linux";

/// Title of the `ua_os_version` scalar.
pub const OS_VERSION_TITLE: &'static str = "Operating System Version";

/// LLM-facing narrative of that scalar, after its `## ua_os_version` heading.
pub const OS_VERSION_DOC_LLM_BODY: &'static str = "Extracts the **operating-system version** from an HTTP `User-Agent` header and returns it as a dotted `VARCHAR` (for example `17.0` or `10`).\n\n**When to use:** measure OS upgrade adoption, detect end-of-life platforms, or correlate behavior with platform version in web analytics.\n\n**Input:** one `ua VARCHAR` column or literal.\n**Output:** a dotted version string assembled from the components uap-core reports.\n\n**Edge cases:** `NULL`, empty, unparseable, or version-less input returns `NULL`. Values track the embedded uap-core database; prefer ranges over exact comparisons.";

/// Human-facing narrative of that scalar, after the `# ` of its heading.
pub const OS_VERSION_DOC_MD_TEXT: &'static str = "Operating-system version\n\n`ua_os_version(ua)` returns the dotted OS version parsed from a User-Agent string.\n\n## Usage\n\n```sql\nSELECT ua_os_version(ua) AS os_ver FROM hits;\n-- '17.0', '10'\n```\n\n## Notes\n\n- NULL/empty/version-less input yields NULL.\n- Versions may drift with uap-core updates.";

/// Search terms of that scalar, comma-separated, before its name and
/// "user-agent".
pub const OS_VERSION_KEYWORDS_HEAD: &'static str = "os version, operating system version, platform version";

/// Title of the `ua_device` scalar.
pub const DEVICE_TITLE: &'static str = "Device Family Model";

/// LLM-facing narrative of that scalar, after its `## ua_device` heading.
pub const DEVICE_DOC_LLM_BODY: &'static str = "Extracts the **device family / model** from an HTTP `User-Agent` header and returns it as a `VARCHAR` (for example `iPhone` or `Pixel 7`).\n\n**When to use:** segment traffic by hardware, build device-popularity reports, or distinguish mobile from desktop. Pair with `ua_device_brand` for the manufacturer.\n\n**Input:** one `ua VARCHAR` column or literal.\n**Output:** a device family/model string.\n\n**Edge cases:** generic desktop browsers, bots, and unidentifiable input return `NULL` — desktop User-Agents typically carry no device signal. For bots, the device is deliberately suppressed to `NULL` (use `ua_is_bot` instead).";

/// Human-facing narrative of that scalar, after the `# ` of its heading.
pub const DEVICE_DOC_MD_TEXT: &'static str = "Device family\n\n`ua_device(ua)` returns the device family/model parsed from a User-Agent string.\n\n## Usage\n\n```sql\nSELECT ua_device(ua) AS device FROM hits;\n-- 'iPhone', 'Pixel 7'\n```\n\n## Notes\n\n- NULL for generic desktops, bots, and unknown devices.\n- Use `ua_device_brand` for the manufacturer.";

/// Search terms of that scalar, comma-separated, before its name and
/// "user-agent".
pub const DEVICE_KEYWORDS_HEAD: &'static str = "device, device family, model, phone, tablet, iphone, pixel";

/// Title of the `ua_device_brand` scalar.
pub const DEVICE_BRAND_TITLE: &'static str = "Device Brand Maker";

/// LLM-facing narrative of that scalar, after its `## ua_device_brand` heading.
pub const DEVICE_BRAND_DOC_LLM_BODY: &'static str = "Extracts the **device brand / manufacturer** from an HTTP `User-Agent` header and returns it as a `VARCHAR` (for example `Apple`, `Samsung`, or `Google`).\n\n**When to use:** group traffic by vendor, build manufacturer market-share reports, or join against a hardware catalog. Pair with `ua_device` for the specific model.\n\n**Input:** one `ua VARCHAR` column or literal.\n**Output:** the brand/manufacturer name.\n\n**Edge cases:** generic desktop browsers, bots, and unidentifiable input return `NULL`; brand is suppressed to `NULL` for bots.";

/// Human-facing narrative of that scalar, after the `# ` of its heading.
pub const DEVICE_BRAND_DOC_MD_TEXT: &'static str = "Device brand\n\n`ua_device_brand(ua)` returns the device brand/manufacturer parsed from a User-Agent string.\n\n## Usage\n\n```sql\nSELECT ua_device_brand(ua) AS brand FROM hits;\n-- 'Apple', 'Samsung', 'Google'\n```\n\n## Notes\n\n- NULL for generic desktops, bots, and unknown brands.\n- Use `ua_device` for the specific model.";

/// Search terms of that scalar, comma-separated, before its name and
/// "user-agent".
pub const DEVICE_BRAND_KEYWORDS_HEAD: &'static str = "device brand, manufacturer, maker, apple, samsung, google";

/// Title of the `ua_is_bot` scalar.
pub const IS_BOT_TITLE: &'static str = "Detect Bot Crawler";

/// LLM-facing narrative of that scalar.
pub const IS_BOT_DOC_LLM: &'static str = "## ua_is_bot\n\nReturns a `BOOLEAN` that is `TRUE` when an HTTP `User-Agent` string identifies a **spider / crawler / bot** (for example Googlebot, Bingbot, or other automated agents) and `FALSE` for ordinary human browsers.\n\n**When to use:** filter automated traffic out of web-analytics aggregates, route bot requests differently, or compute a human-vs-bot split. A typical pattern is `WHERE NOT ua_is_bot(ua)` to keep only real visitors.\n\n**Input:** one `ua VARCHAR` column or literal.\n**Output:** `TRUE`/`FALSE`, or `NULL` when the input is `NULL`.\n\n**How it works:** detection is driven by the embedded uap-core regex database, which classifies crawlers under the device family `Spider`. Unrecognized agents are treated as non-bots (`FALSE`).";

/// Human-facing narrative of that scalar.
pub const IS_BOT_DOC_MD: &'static str = "# Bot detection\n\n`ua_is_bot(ua)` returns TRUE for spiders/crawlers and FALSE for ordinary browsers.\n\n## Usage\n\n```sql\n-- Keep only human traffic\nSELECT * FROM hits WHERE NOT ua_is_bot(ua);\n```\n\n## Notes\n\n- NULL input yields NULL.\n- Backed by uap-core's `Spider` device family.";

/// Search terms of that scalar, comma-separated.
pub const IS_BOT_KEYWORDS: &'static str = "bot, crawler, spider, googlebot, bingbot, robot, automated traffic, filter, ua_is_bot, user-agent";

/// Which VARCHAR field a [`UaField`] scalar extracts.
#[derive(Clone, Copy, Debug, PartialEq, Eq, Structural)]
pub enum Field {
    Browser,
    BrowserVersion,
    Os,
    OsVersion,
    Device,
    DeviceBrand,
}

/// The SQL name of a field's scalar.
pub open spec fn field_name(f: Field) -> Seq<char> {
    match f {
        Field::Browser => "ua_browser"@,
        Field::BrowserVersion => "ua_browser_version"@,
        Field::Os => "ua_os"@,
        Field::OsVersion => "ua_os_version"@,
        Field::Device => "ua_device"@,
        Field::DeviceBrand => "ua_device_brand"@,
    }
}

/// The one-line description of a field's scalar.
pub open spec fn field_description(f: Field) -> Seq<char> {
    match f {
        Field::Browser => "Browser/client family from a User-Agent (e.g. 'Chrome'), or NULL"@,
        Field::BrowserVersion => "Browser version from a User-Agent (e.g. '120.0.0'), or NULL"@,
        Field::Os => "Operating-system family from a User-Agent (e.g. 'Windows', 'iOS'), or NULL"@,
        Field::OsVersion => "Operating-system version from a User-Agent (e.g. '17.0'), or NULL"@,
        Field::Device => "Device family/model from a User-Agent (e.g. 'iPhone'), or NULL"@,
        Field::DeviceBrand => "Device brand from a User-Agent (e.g. 'Apple'), or NULL"@,
    }
}

/// What the example query of a field's scalar shows.
pub open spec fn field_example_description(f: Field) -> Seq<char> {
    match f {
        Field::Browser => "Extract the browser family ('Chrome') from a User-Agent."@,
        Field::BrowserVersion => "Extract the browser version ('120.0.0') from a User-Agent."@,
        Field::Os => "Extract the operating-system family ('Windows') from a User-Agent."@,
        Field::OsVersion => "Extract the operating-system version ('10') from a User-Agent."@,
        Field::Device => "Extract the device family from a User-Agent (NULL for a generic desktop)."@,
        Field::DeviceBrand => "Extract the device brand from a User-Agent (NULL for a generic desktop)."@,
    }
}

/// The example query of a field's scalar, over [`CHROME_WIN`].
pub open spec fn field_example_sql(f: Field) -> Seq<char> {
    "SELECT useragent.main."@ + field_name(f) + "('"@ + CHROME_WIN@ + "');"@
}

/// The title, LLM narrative body, Markdown narrative text and leading
/// keywords that are stored for a field's scalar.
pub open spec fn field_texts(f: Field) -> (Seq<char>, Seq<char>, Seq<char>, Seq<char>) {
    match f {
        Field::Browser => (
            BROWSER_TITLE@,
            BROWSER_DOC_LLM_BODY@,
            BROWSER_DOC_MD_TEXT@,
            BROWSER_KEYWORDS_HEAD@,
        ),
        Field::BrowserVersion => (
            BROWSER_VERSION_TITLE@,
            BROWSER_VERSION_DOC_LLM_BODY@,
            BROWSER_VERSION_DOC_MD_TEXT@,
            BROWSER_VERSION_KEYWORDS_HEAD@,
        ),
        Field::Os => (
            OS_TITLE@,
            OS_DOC_LLM_BODY@,
            OS_DOC_MD_TEXT@,
            OS_KEYWORDS_HEAD@,
        ),
        Field::OsVersion => (
            OS_VERSION_TITLE@,
            OS_VERSION_DOC_LLM_BODY@,
            OS_VERSION_DOC_MD_TEXT@,
            OS_VERSION_KEYWORDS_HEAD@,
        ),
        Field::Device => (
            DEVICE_TITLE@,
            DEVICE_DOC_LLM_BODY@,
            DEVICE_DOC_MD_TEXT@,
            DEVICE_KEYWORDS_HEAD@,
        ),
        Field::DeviceBrand => (
            DEVICE_BRAND_TITLE@,
            DEVICE_BRAND_DOC_LLM_BODY@,
            DEVICE_BRAND_DOC_MD_TEXT@,
            DEVICE_BRAND_KEYWORDS_HEAD@,
        ),
    }
}

/// The title, LLM narrative, Markdown narrative and keyword list of a field's
/// scalar. The LLM narrative opens with a `## <name>` heading, the Markdown
/// one with a `# ` heading, and the keywords end with the name and
/// "user-agent".
pub open spec fn field_docs(f: Field) -> (Seq<char>, Seq<char>, Seq<char>, Seq<char>) {
    let (title, llm_body, md_text, keywords_head) = field_texts(f);
    (
        title,
        "## "@ + field_name(f) + "\n\n"@ + llm_body,
        "# "@ + md_text,
        keywords_head + ", "@ + field_name(f) + ", user-agent"@,
    )
}

/// The category under which the field scalars are documented.
pub open spec fn fields_category() -> Seq<char> {
    "scalar/fields.rs"@
}

/// The value of field `f` in a parse result.
pub open spec fn field_value(f: Field, p: ParsedView) -> Option<Seq<char>> {
    match f {
        Field::Browser => p.browser,
        Field::BrowserVersion => p.browser_version,
        Field::Os => p.os,
        Field::OsVersion => p.os_version,
        Field::Device => p.device,
        Field::DeviceBrand => p.brand,
    }
}

impl Field {
    /// The SQL name of this field's scalar.
    pub fn name(self) -> (n: &'static str)
        ensures
            n@ == field_name(self),
    {
        match self {
            Field::Browser => "ua_browser",
            Field::BrowserVersion => "ua_browser_version",
            Field::Os => "ua_os",
            Field::OsVersion => "ua_os_version",
            Field::Device => "ua_device",
            Field::DeviceBrand => "ua_device_brand",
        }
    }

    /// The one-line description of this field's scalar.
    pub fn description(self) -> (d: &'static str)
        ensures
            d@ == field_description(self),
    {
        match self {
            Field::Browser => "Browser/client family from a User-Agent (e.g. 'Chrome'), or NULL",
            Field::BrowserVersion => "Browser version from a User-Agent (e.g. '120.0.0'), or NULL",
            Field::Os => "Operating-system family from a User-Agent (e.g. 'Windows', 'iOS'), or NULL",
            Field::OsVersion => "Operating-system version from a User-Agent (e.g. '17.0'), or NULL",
            Field::Device => "Device family/model from a User-Agent (e.g. 'iPhone'), or NULL",
            Field::DeviceBrand => "Device brand from a User-Agent (e.g. 'Apple'), or NULL",
        }
    }

    /// A worked example query for this field's scalar.
    pub fn example(self) -> (e: Example)
        ensures
            e.sql@ == field_example_sql(self),
            e.description@ == field_example_description(self),
    {
        let description = match self {
            Field::Browser => "Extract the browser family ('Chrome') from a User-Agent.",
            Field::BrowserVersion => "Extract the browser version ('120.0.0') from a User-Agent.",
            Field::Os => "Extract the operating-system family ('Windows') from a User-Agent.",
            Field::OsVersion => "Extract the operating-system version ('10') from a User-Agent.",
            Field::Device => "Extract the device family from a User-Agent (NULL for a generic desktop).",
            Field::DeviceBrand => "Extract the device brand from a User-Agent (NULL for a generic desktop).",
        };
        let mut sql = String::new();
        sql.append("SELECT useragent.main.");
        sql.append(self.name());
        sql.append("('");
        sql.append(CHROME_WIN);
        sql.append("');");
        assert(sql@ =~= field_example_sql(self));
        Example { sql, description: String::from_str(description) }
    }

    /// The standard discovery and description tags of this field's scalar.
    pub fn object_tags(self) -> (tags: Vec<(String, String)>)
        ensures
            tags_view(tags@) == object_tags_spec(
                field_docs(self).0,
                field_docs(self).1,
                field_docs(self).2,
                field_docs(self).3,
                fields_category(),
            ),
    {
        let (title, llm_body, md_text, keywords_head) = match self {
            Field::Browser => (
                BROWSER_TITLE,
                BROWSER_DOC_LLM_BODY,
                BROWSER_DOC_MD_TEXT,
                BROWSER_KEYWORDS_HEAD,
            ),
            Field::BrowserVersion => (
                BROWSER_VERSION_TITLE,
                BROWSER_VERSION_DOC_LLM_BODY,
                BROWSER_VERSION_DOC_MD_TEXT,
                BROWSER_VERSION_KEYWORDS_HEAD,
            ),
            Field::Os => (
                OS_TITLE,
                OS_DOC_LLM_BODY,
                OS_DOC_MD_TEXT,
                OS_KEYWORDS_HEAD,
            ),
            Field::OsVersion => (
                OS_VERSION_TITLE,
                OS_VERSION_DOC_LLM_BODY,
                OS_VERSION_DOC_MD_TEXT,
                OS_VERSION_KEYWORDS_HEAD,
            ),
            Field::Device => (
                DEVICE_TITLE,
                DEVICE_DOC_LLM_BODY,
                DEVICE_DOC_MD_TEXT,
                DEVICE_KEYWORDS_HEAD,
            ),
            Field::DeviceBrand => (
                DEVICE_BRAND_TITLE,
                DEVICE_BRAND_DOC_LLM_BODY,
                DEVICE_BRAND_DOC_MD_TEXT,
                DEVICE_BRAND_KEYWORDS_HEAD,
            ),
        };
        let name = self.name();
        let mut doc_llm = String::new();
        doc_llm.append("## ");
        doc_llm.append(name);
        doc_llm.append("\n\n");
        doc_llm.append(llm_body);
        let mut doc_md = String::new();
        doc_md.append("# ");
        doc_md.append(md_text);
        let mut keywords = String::new();
        keywords.append(keywords_head);
        keywords.append(", ");
        keywords.append(name);
        keywords.append(", user-agent");
        assert(doc_llm@ =~= field_docs(self).1);
        assert(doc_md@ =~= field_docs(self).2);
        assert(keywords@ =~= field_docs(self).3);
        object_tags(title, doc_llm.as_str(), doc_md.as_str(), keywords.as_str(), "scalar/fields.rs")
    }

    /// This field of the parse of `ua`.
    pub fn extract(self, parser: &UaParser, ua: &str) -> (r: Option<String>)
        ensures
            r.deep_view() == field_value(self, parse_spec(parser@, ua@)),
    {
        match self {
            Field::Browser => browser(parser, ua),
            Field::BrowserVersion => browser_version(parser, ua),
            Field::Os => os(parser, ua),
            Field::OsVersion => os_version(parser, ua),
            Field::Device => device(parser, ua),
            Field::DeviceBrand => device_brand(parser, ua),
        }
    }
}

/// What a field scalar gives for one row: NULL for NULL, else the field of
/// the row's parse.
pub open spec fn field_cell(f: Field, db: Seq<char>, row: Option<Seq<char>>) -> Option<Seq<char>> {
    match row {
        Some(ua) => field_value(f, parse_spec(db, ua)),
        None => None,
    }
}

/// What a field scalar gives for each row of a `ua` column.
pub open spec fn field_column(f: Field, db: Seq<char>, rows: Seq<Option<Seq<char>>>) -> Seq<Option<Seq<char>>> {
    rows.map_values(|row: Option<Seq<char>>| field_cell(f, db, row))
}

/// What `ua_is_bot` gives for one row: NULL for NULL, else whether the row is
/// a spider or crawler.
pub open spec fn is_bot_cell(db: Seq<char>, row: Option<Seq<char>>) -> Option<bool> {
    match row {
        Some(ua) => Some(parse_spec(db, ua).is_bot),
        None => None,
    }
}

/// What `ua_is_bot` gives for each row of a `ua` column.
pub open spec fn is_bot_column(db: Seq<char>, rows: Seq<Option<Seq<char>>>) -> Seq<Option<bool>> {
    rows.map_values(|row: Option<Seq<char>>| is_bot_cell(db, row))
}

/// A VARCHAR-returning, one-argument scalar that pulls one field out of a
/// parsed User-Agent.
pub struct UaField(Field);

impl UaField {
    /// The field this scalar extracts.
    pub closed spec fn kind(&self) -> Field {
        self.0
    }

    /// `ua_browser`.
    pub fn browser() -> (f: Self)
        ensures
            f.kind() == Field::Browser,
    {
        UaField(Field::Browser)
    }

    /// `ua_browser_version`.
    pub fn browser_version() -> (f: Self)
        ensures
            f.kind() == Field::BrowserVersion,
    {
        UaField(Field::BrowserVersion)
    }

    /// `ua_os`.
    pub fn os() -> (f: Self)
        ensures
            f.kind() == Field::Os,
    {
        UaField(Field::Os)
    }

    /// `ua_os_version`.
    pub fn os_version() -> (f: Self)
        ensures
            f.kind() == Field::OsVersion,
    {
        UaField(Field::OsVersion)
    }

    /// `ua_device`.
    pub fn device() -> (f: Self)
        ensures
            f.kind() == Field::Device,
    {
        UaField(Field::Device)
    }

    /// `ua_device_brand`.
    pub fn device_brand() -> (f: Self)
        ensures
            f.kind() == Field::DeviceBrand,
    {
        UaField(Field::DeviceBrand)
    }

    /// The field this scalar extracts.
    pub fn field(&self) -> (f: Field)
        ensures
            f == self.kind(),
    {
        self.0
    }

    /// The scalar's SQL name.
    pub fn name(&self) -> (n: &'static str)
        ensures
            n@ == field_name(self.kind()),
    {
        self.0.name()
    }

    /// The scalar's return type.
    pub fn result_type(&self) -> (t: SqlType)
        ensures
            t == SqlType::Varchar,
    {
        SqlType::Varchar
    }

    /// The scalar over a column: row by row, NULL stays NULL and a User-Agent
    /// gives its field.
    pub fn process_rows(&self, parser: &UaParser, rows: &[Option<&str>]) -> (out: Vec<Option<String>>)
        ensures
            out.deep_view() == field_column(self.kind(), parser@, rows.deep_view()),
    {
        let mut out: Vec<Option<String>> = Vec::new();
        let mut i: usize = 0;
        while i < rows.len()
            invariant
                i <= rows.len(),
                out.deep_view() == field_column(self.kind(), parser@, rows.deep_view().take(i as int)),
            decreases rows.len() - i,
        {
            let ghost before = out.deep_view();
            let ghost row = rows.deep_view()[i as int];
            let v = match rows[i] {
                Some(ua) => self.0.extract(parser, ua),
                None => None,
            };
            assert(v.deep_view() == field_cell(self.kind(), parser@, row));
            out.push(v);
            assert(out.deep_view() =~= before.push(v.deep_view()));
            assert(rows.deep_view().take(i + 1) =~= rows.deep_view().take(i as int).push(row));
            i = i + 1;
            assert(out.deep_view() =~= field_column(self.kind(), parser@, rows.deep_view().take(i as int)));
        }
        assert(rows.deep_view().take(i as int) =~= rows.deep_view());
        out
    }
}

/// `ua_is_bot(ua) -> BOOLEAN`: true for spiders and crawlers (uap device family
/// "Spider"). NULL in, NULL out.
pub struct UaIsBot;

impl UaIsBot {
    /// The scalar's SQL name.
    pub fn name(&self) -> (n: &'static str)
        ensures
            n@ == "ua_is_bot"@,
    {
        "ua_is_bot"
    }

    /// The one-line description of the scalar.
    pub fn description(&self) -> (d: &'static str)
        ensures
            d@ == "True if the User-Agent is a spider/crawler (e.g. Googlebot), else false; NULL in → NULL out"@,
    {
        "True if the User-Agent is a spider/crawler (e.g. Googlebot), else false; NULL in → NULL out"
    }

    /// A worked example query for the scalar.
    pub fn example(&self) -> (e: Example)
        ensures
            e.sql@ == "SELECT useragent.main.ua_is_bot('Mozilla/5.0 (compatible; Googlebot/2.1; +http://www.google.com/bot.html)');"@,
            e.description@ == "Detect that the Googlebot crawler User-Agent is a bot (returns true)."@,
    {
        Example {
            sql: String::from_str("SELECT useragent.main.ua_is_bot('Mozilla/5.0 (compatible; Googlebot/2.1; +http://www.google.com/bot.html)');"),
            description: String::from_str("Detect that the Googlebot crawler User-Agent is a bot (returns true)."),
        }
    }

    /// The standard discovery and description tags of the scalar.
    pub fn object_tags(&self) -> (tags: Vec<(String, String)>)
        ensures
            tags_view(tags@) == object_tags_spec(
                IS_BOT_TITLE@,
                IS_BOT_DOC_LLM@,
                IS_BOT_DOC_MD@,
                IS_BOT_KEYWORDS@,
                fields_category(),
            ),
    {
        object_tags(IS_BOT_TITLE, IS_BOT_DOC_LLM, IS_BOT_DOC_MD, IS_BOT_KEYWORDS, "scalar/fields.rs")
    }

    /// The scalar's return type.
    pub fn result_type(&self) -> (t: SqlType)
        ensures
            t == SqlType::Boolean,
    {
        SqlType::Boolean
    }

    /// The scalar over a column: row by row, NULL stays NULL and a User-Agent
    /// gives whether it is a bot.
    pub fn process_rows(&self, parser: &UaParser, rows: &[Option<&str>]) -> (out: Vec<Option<bool>>)
        ensures
            out@ == is_bot_column(parser@, rows.deep_view()),
    {
        let mut out: Vec<Option<bool>> = Vec::new();
        let mut i: usize = 0;
        while i < rows.len()
            invariant
                i <= rows.len(),
                out@ == is_bot_column(parser@, rows.deep_view().take(i as int)),
            decreases rows.len() - i,
        {
            let ghost row = rows.deep_view()[i as int];
            let v = match rows[i] {
                Some(ua) => Some(is_bot(parser, ua)),
                None => None,
            };
            assert(v == is_bot_cell(parser@, row));
            out.push(v);
            assert(rows.deep_view().take(i + 1) =~= rows.deep_view().take(i as int).push(row));
            i = i + 1;
            assert(out@ =~= is_bot_column(parser@, rows.deep_view().take(i as int)));
        }
        assert(rows.deep_view().take(i as int) =~= rows.deep_view());
        out
    }
}

} // verus!
