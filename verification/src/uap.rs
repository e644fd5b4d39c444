//! The boundary with the `uaparser` crate, which compiles the uap-core regex
//! database and matches User-Agent strings against it. Everything here is
//! trusted: the contracts below are what the crate's source shows, not what
//! Verus has proved.

use std::borrow::Cow;
use uaparser::Parser;
use vstd::prelude::*;


verus! {

/// `uaparser::UserAgentParser`: the compiled regex database (opaque).
#[verifier::external_type_specification]
#[verifier::external_body]
pub struct ExUserAgentParser(uaparser::UserAgentParser);

/// `uaparser::Error`: why a regex database failed to compile (opaque).
#[verifier::external_type_specification]
#[verifier::external_body]
pub struct ExUapError(uaparser::Error);

/// What `uaparser::UserAgentParser::parse` reports for one User-Agent, with
/// every borrowed string turned into an owned one.
#[derive(Clone, Debug, PartialEq, Eq)]
pub struct RawClient {
    pub browser_family: String,
    pub browser_major: Option<String>,
    pub browser_minor: Option<String>,
    pub browser_patch: Option<String>,
    pub os_family: String,
    pub os_major: Option<String>,
    pub os_minor: Option<String>,
    pub os_patch: Option<String>,
    pub os_patch_minor: Option<String>,
    pub device_family: String,
    pub device_brand: Option<String>,
}

/// The mathematical value of a [`RawClient`]: its strings as `char` sequences.
pub struct RawClientView {
    pub browser_family: Seq<char>,
    pub browser_major: Option<Seq<char>>,
    pub browser_minor: Option<Seq<char>>,
    pub browser_patch: Option<Seq<char>>,
    pub os_family: Seq<char>,
    pub os_major: Option<Seq<char>>,
    pub os_minor: Option<Seq<char>>,
    pub os_patch: Option<Seq<char>>,
    pub os_patch_minor: Option<Seq<char>>,
    pub device_family: Seq<char>,
    pub device_brand: Option<Seq<char>>,
}

impl View for RawClient {
    type V = RawClientView;

    open spec fn view(&self) -> RawClientView {
        RawClientView {
            browser_family: self.browser_family@,
            browser_major: self.browser_major.deep_view(),
            browser_minor: self.browser_minor.deep_view(),
            browser_patch: self.browser_patch.deep_view(),
            os_family: self.os_family@,
            os_major: self.os_major.deep_view(),
            os_minor: self.os_minor.deep_view(),
            os_patch: self.os_patch.deep_view(),
            os_patch_minor: self.os_patch_minor.deep_view(),
            device_family: self.device_family@,
            device_brand: self.device_brand.deep_view(),
        }
    }
}

/// Whether `uaparser` compiles the regex database `db` (YAML text) into a
/// parser. It reads the YAML and compiles every regular expression in it, so
/// the answer depends on `db` alone.
pub uninterp spec fn uap_builds(db: Seq<char>) -> bool;

/// What `uaparser`'s `parse` reports for the User-Agent `ua` against the
/// parser compiled from the database `db`: the first matching rule of each of
/// the user-agent, OS and device rule lists, with its replacements applied, or
/// the family "Other" where no rule matches.
pub uninterp spec fn uap_client(db: Seq<char>, ua: Seq<char>) -> RawClientView;

/// A compiled uap-core regex database, ready to parse User-Agents. Its view is
/// the database text it was compiled from. Both fields are private to this
/// module and are written only by [`uap_build`], which compiles `inner` from
/// the very text it records in `db`.
pub struct UaParser {
    inner: uaparser::UserAgentParser,
    db: Ghost<Seq<char>>,
}

impl View for UaParser {
    type V = Seq<char>;

    closed spec fn view(&self) -> Seq<char> {
        self.db@
    }
}

/// Calls `uaparser::UserAgentParser::from_bytes` on the UTF-8 bytes of `db`
/// and, on success, pairs the compiled parser with the text `db` it was
/// compiled from. Claimed: it succeeds exactly when `uap_builds(db@)`, and the
/// parser returned has `db@` as its view.
#[verifier::external_body]
pub(crate) fn uap_build(db: &str) -> (r: Result<UaParser, uaparser::Error>)
    ensures
        r is Ok <==> uap_builds(db@),
        r matches Ok(p) ==> p@ == db@,
{
    match uaparser::UserAgentParser::from_bytes(db.as_bytes()) {
        Ok(inner) => Ok(UaParser { inner, db: Ghost(db@) }),
        Err(e) => Err(e),
    }
}

/// Calls `uaparser::Parser::parse` of the compiled database that `parser`
/// holds on `ua`, and copies the user-agent, OS and device fields of the
/// returned `Client` into a [`RawClient`]. Claimed: the result is
/// `uap_client(parser@, ua@)`, a function of the database text the parser was
/// compiled from (recorded by [`uap_build`], the only writer of that view) and
/// of the input alone.
#[verifier::external_body]
pub(crate) fn uap_parse(parser: &UaParser, ua: &str) -> (c: RawClient)
    ensures
        c@ == uap_client(parser@, ua@),
{
    let c = parser.inner.parse(ua);
    let own = |v: Option<Cow<str>>| v.map(Cow::into_owned);
    RawClient {
        browser_family: c.user_agent.family.into_owned(),
        browser_major: own(c.user_agent.major),
        browser_minor: own(c.user_agent.minor),
        browser_patch: own(c.user_agent.patch),
        os_family: c.os.family.into_owned(),
        os_major: own(c.os.major),
        os_minor: own(c.os.minor),
        os_patch: own(c.os.patch),
        os_patch_minor: own(c.os.patch_minor),
        device_family: c.device.family.into_owned(),
        device_brand: own(c.device.brand),
    }
}

} // verus!
