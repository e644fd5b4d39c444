//! User-Agent parsing over the uap-core regex database, and the worker's
//! field model on top of it.
//!
//! uap-core reports the family "Other" (and no version) when it recognizes
//! nothing. Such families, and blank ones, are *unknown* here and become
//! `None`. A spider or crawler is recognized by the uap device family
//! "Spider"; its device and brand are left out, since the bot signal is carried
//! by `is_bot`.

use vstd::prelude::*;
use vstd::string::StringSliceAdditionalSpecFns;
use vstd::utf8::*;

use crate::regexes::{uap_core_regexes, uap_core_text};
use crate::text::{is_other, is_spider, other_word, spider_word, trim, trim_str};
pub use crate::uap::UaParser;
use crate::uap::{uap_build, uap_builds, uap_client, uap_parse, RawClient, RawClientView};

verus! {

broadcast use vstd::string::group_string_axioms;

/// The largest input, in bytes, that is handed to the regex engine. Longer
/// User-Agents are cut at the last character boundary at or below it.
pub const MAX_INPUT_BYTES: usize = 64 * 1024;

/// Why a regex database could not be compiled.
#[derive(Debug)]
pub enum ParserError {
    /// The database is not valid YAML of the uap-core shape, or one of its
    /// regular expressions does not compile.
    InvalidDatabase(uaparser::Error),
}

impl UaParser {
    /// Compiles the regex database `db` (uap-core `regexes.yaml` text).
    pub fn from_yaml(db: &str) -> (r: Result<UaParser, ParserError>)
        ensures
            r is Ok <==> uap_builds(db@),
            r matches Ok(p) ==> p@ == db@,
    {
        match uap_build(db) {
            Ok(parser) => Ok(parser),
            Err(e) => Err(ParserError::InvalidDatabase(e)),
        }
    }

    /// Compiles the uap-core database held in this library.
    pub fn uap_core() -> (r: Result<UaParser, ParserError>)
        ensures
            r is Ok <==> uap_builds(uap_core_text()),
            r matches Ok(p) ==> p@ == uap_core_text(),
    {
        let db = uap_core_regexes();
        UaParser::from_yaml(db.as_str())
    }
}

/// One-shot parse result. Every field is already normalized: "Other" or blank
/// families are `None`, versions are dotted strings, `is_bot` comes from the
/// device family.
#[derive(Debug, Clone, Default, PartialEq, Eq)]
pub struct Parsed {
    pub browser: Option<String>,
    pub browser_version: Option<String>,
    pub os: Option<String>,
    pub os_version: Option<String>,
    pub device: Option<String>,
    pub brand: Option<String>,
    pub is_bot: bool,
}

/// The mathematical value of a [`Parsed`].
pub struct ParsedView {
    pub browser: Option<Seq<char>>,
    pub browser_version: Option<Seq<char>>,
    pub os: Option<Seq<char>>,
    pub os_version: Option<Seq<char>>,
    pub device: Option<Seq<char>>,
    pub brand: Option<Seq<char>>,
    pub is_bot: bool,
}

impl View for Parsed {
    type V = ParsedView;

    open spec fn view(&self) -> ParsedView {
        ParsedView {
            browser: self.browser.deep_view(),
            browser_version: self.browser_version.deep_view(),
            os: self.os.deep_view(),
            os_version: self.os_version.deep_view(),
            device: self.device.deep_view(),
            brand: self.brand.deep_view(),
            is_bot: self.is_bot,
        }
    }
}

// ---------------------------------------------------------------------------
// Bounding the input
// ---------------------------------------------------------------------------

/// The largest character boundary of `bytes` at or below `end` (0 at worst).
pub open spec fn boundary_at_or_below(bytes: Seq<u8>, end: int) -> int
    decreases end,
{
    if end <= 0 {
        0
    } else if is_char_boundary(bytes, end) {
        end
    } else {
        boundary_at_or_below(bytes, end - 1)
    }
}

/// How many leading bytes of `bytes` are kept: all of them when they fit in
/// [`MAX_INPUT_BYTES`], else up to the last character boundary that fits.
pub open spec fn bounded_len(bytes: Seq<u8>) -> int {
    if bytes.len() <= MAX_INPUT_BYTES {
        bytes.len() as int
    } else {
        boundary_at_or_below(bytes, MAX_INPUT_BYTES as int)
    }
}

/// The kept bytes of a UTF-8 encoding.
pub open spec fn bounded_bytes(bytes: Seq<u8>) -> Seq<u8> {
    bytes.subrange(0, bounded_len(bytes))
}

/// The characters of `ua` that are handed to the regex engine.
pub open spec fn bounded(ua: Seq<char>) -> Seq<char> {
    decode_utf8(bounded_bytes(encode_utf8(ua)))
}

proof fn lemma_boundary_at_or_below(bytes: Seq<u8>, end: int)
    requires
        valid_utf8(bytes),
        end <= bytes.len(),
    ensures
        0 <= boundary_at_or_below(bytes, end),
        boundary_at_or_below(bytes, end) <= end || end < 0,
        is_char_boundary(bytes, boundary_at_or_below(bytes, end)),
        forall|i: int|
            boundary_at_or_below(bytes, end) < i <= end ==> !is_char_boundary(bytes, i),
    decreases end,
{
    if end <= 0 {
    } else if is_char_boundary(bytes, end) {
    } else {
        lemma_boundary_at_or_below(bytes, end - 1);
    }
}

/// Facts about the kept bytes of a UTF-8 encoding.
proof fn lemma_bounded_bytes(ua: Seq<char>)
    ensures
        valid_utf8(encode_utf8(ua)),
        0 <= bounded_len(encode_utf8(ua)) <= encode_utf8(ua).len(),
        bounded_len(encode_utf8(ua)) <= MAX_INPUT_BYTES,
        is_char_boundary(encode_utf8(ua), bounded_len(encode_utf8(ua))),
        valid_utf8(bounded_bytes(encode_utf8(ua))),
        encode_utf8(bounded(ua)) == bounded_bytes(encode_utf8(ua)),
{
    let bytes = encode_utf8(ua);
    encode_utf8_valid_utf8(ua);
    is_char_boundary_start_end_of_seq(bytes);
    if bytes.len() > MAX_INPUT_BYTES {
        lemma_boundary_at_or_below(bytes, MAX_INPUT_BYTES as int);
    }
    let e = bounded_len(bytes);
    valid_utf8_split(bytes, e);
    decode_utf8_encode_utf8(bytes.subrange(0, e));
}

/// UTF-8 encoding distributes over concatenation.
proof fn lemma_encode_concat(a: Seq<char>, b: Seq<char>)
    ensures
        encode_utf8(a + b) == encode_utf8(a) + encode_utf8(b),
    decreases a.len(),
{
    if a.len() == 0 {
        assert(a + b =~= b);
        assert(encode_utf8(a) =~= Seq::<u8>::empty());
        assert(encode_utf8(b) =~= encode_utf8(a) + encode_utf8(b));
    } else {
        assert((a + b).drop_first() =~= a.drop_first() + b);
        assert((a + b)[0] == a[0]);
        lemma_encode_concat(a.drop_first(), b);
        assert(encode_utf8(a + b) =~= encode_utf8(a) + encode_utf8(b));
    }
}

/// The encoding of a non-empty sequence is non-empty.
proof fn lemma_encode_nonempty(a: Seq<char>)
    requires
        a.len() > 0,
    ensures
        encode_utf8(a).len() > 0,
{
    assert(encode_scalar(a[0] as u32).len() >= 1);
}

/// The end of the encoding of a prefix is a character boundary of the whole
/// encoding.
proof fn lemma_prefix_end_is_boundary(a: Seq<char>, b: Seq<char>)
    ensures
        is_char_boundary(encode_utf8(a + b), encode_utf8(a).len() as int),
    decreases a.len(),
{
    broadcast use encode_utf8_valid_utf8;

    lemma_encode_concat(a, b);
    if a.len() == 0 {
        assert(encode_utf8(a).len() == 0);
    } else {
        let c = a + b;
        let bytes = encode_utf8(c);
        assert(c[0] == a[0]);
        assert(c.drop_first() =~= a.drop_first() + b);
        encode_utf8_first_scalar(c);
        lemma_encode_concat(a.drop_first(), b);
        let first = encode_scalar(c[0] as u32);
        assert(bytes == first + encode_utf8(c.drop_first()));
        assert(pop_first_scalar(bytes) =~= encode_utf8(c.drop_first()));
        assert(encode_utf8(a) == first + encode_utf8(a.drop_first()));
        lemma_encode_nonempty(a);
        lemma_prefix_end_is_boundary(a.drop_first(), b);
    }
}

/// The bounded input is a prefix of the input, takes at most
/// [`MAX_INPUT_BYTES`] bytes in UTF-8, is the whole input when the input fits,
/// is the longest prefix that fits, and bounding it again changes nothing.
pub proof fn lemma_bounded(ua: Seq<char>)
    ensures
        ua.len() >= bounded(ua).len(),
        bounded(ua) == ua.subrange(0, bounded(ua).len() as int),
        encode_utf8(bounded(ua)).len() <= MAX_INPUT_BYTES,
        encode_utf8(ua).len() <= MAX_INPUT_BYTES ==> bounded(ua) == ua,
        forall|k: int|
            bounded(ua).len() < k <= ua.len() ==> #[trigger] encode_utf8(ua.take(k)).len()
                > MAX_INPUT_BYTES,
        bounded(bounded(ua)) == bounded(ua),
{
    let bytes = encode_utf8(ua);
    lemma_bounded_bytes(ua);
    let e = bounded_len(bytes);
    encode_utf8_decode_utf8(ua);
    decode_utf8_split(bytes, e);
    let head = decode_utf8(bytes.subrange(0, e));
    let tail = decode_utf8(bytes.subrange(e, bytes.len() as int));
    assert(ua == head + tail);
    assert(head == ua.subrange(0, head.len() as int));
    if bytes.len() <= MAX_INPUT_BYTES {
        assert(bytes.subrange(0, e) =~= bytes);
    }
    let b = bounded(ua);
    let bb = encode_utf8(b);
    assert(bb.len() <= MAX_INPUT_BYTES);
    assert(bb.subrange(0, bb.len() as int) =~= bb);
    encode_utf8_decode_utf8(b);
    assert forall|k: int| b.len() < k <= ua.len() implies #[trigger] encode_utf8(ua.take(k)).len()
        > MAX_INPUT_BYTES by {
        let m = b.len() as int;
        let pre = ua.take(k);
        let post = ua.skip(k);
        assert(ua =~= pre + post);
        lemma_prefix_end_is_boundary(pre, post);
        lemma_encode_concat(pre, post);
        assert(b =~= ua.take(m));
        assert(pre =~= b + ua.subrange(m, k));
        lemma_encode_concat(b, ua.subrange(m, k));
        lemma_encode_nonempty(ua.subrange(m, k));
        if encode_utf8(pre).len() <= MAX_INPUT_BYTES {
            assert(bytes.len() > MAX_INPUT_BYTES) by {
                if bytes.len() <= MAX_INPUT_BYTES {
                    assert(b == ua);
                }
            }
            lemma_boundary_at_or_below(bytes, MAX_INPUT_BYTES as int);
            assert(bytes.subrange(0, e).len() == e);
            assert(false);
        }
    }
}

/// Cuts `ua` to at most [`MAX_INPUT_BYTES`] bytes, at a character boundary.
pub fn bound(ua: &str) -> (r: &str)
    ensures
        r@ == bounded(ua@),
        r.spec_bytes() == bounded_bytes(ua.spec_bytes()),
{
    proof {
        lemma_bounded_bytes(ua@);
        encode_utf8_decode_utf8(ua@);
    }
    if ua.as_bytes().len() <= MAX_INPUT_BYTES {
        assert(ua.spec_bytes().subrange(0, ua.spec_bytes().len() as int) =~= ua.spec_bytes());
        return ua;
    }
    let ghost bytes = ua.spec_bytes();
    let mut end: usize = MAX_INPUT_BYTES;
    while end > 0 && !ua.is_char_boundary(end)
        invariant
            bytes == ua.spec_bytes(),
            valid_utf8(bytes),
            end <= MAX_INPUT_BYTES < bytes.len(),
            boundary_at_or_below(bytes, end as int) == bounded_len(bytes),
        decreases end,
    {
        end = end - 1;
    }
    let (head, _rest) = ua.split_at(end);
    proof {
        encode_utf8_decode_utf8(head@);
    }
    head
}

// ---------------------------------------------------------------------------
// Normalization
// ---------------------------------------------------------------------------

/// A uap family with "Other" and blank values read as unknown; otherwise the
/// family without surrounding white space.
pub open spec fn norm_family_spec(family: Seq<char>) -> Option<Seq<char>> {
    let t = trim(family);
    if t.len() == 0 || t == other_word() {
        None
    } else {
        Some(t)
    }
}

/// An optional uap value with blank values read as absent.
pub open spec fn norm_opt_spec(value: Option<Seq<char>>) -> Option<Seq<char>> {
    match value {
        Some(v) => if trim(v).len() > 0 {
            Some(v)
        } else {
            None
        },
        None => None,
    }
}

/// Normalizes a uap family string: "Other" or blank becomes `None`.
pub fn norm_family(family: &str) -> (r: Option<String>)
    ensures
        r.deep_view() == norm_family_spec(family@),
{
    let t = trim_str(family);
    if t.unicode_len() == 0 || is_other(t) {
        None
    } else {
        Some(t.to_owned())
    }
}

/// Normalizes an optional uap value: blank becomes `None`.
pub fn norm_opt(value: Option<&str>) -> (r: Option<String>)
    ensures
        r.deep_view() == norm_opt_spec(value.deep_view()),
{
    match value {
        Some(v) => {
            if trim_str(v).unicode_len() > 0 {
                Some(v.to_owned())
            } else {
                None
            }
        },
        None => None,
    }
}

// ---------------------------------------------------------------------------
// Versions
// ---------------------------------------------------------------------------

/// A version component that counts: present and not blank.
pub open spec fn is_present_part(part: Option<Seq<char>>) -> bool {
    part is Some && trim(part->0).len() > 0
}

/// The leading run of present components, each without surrounding white
/// space; the run stops at the first absent or blank component.
pub open spec fn leading_parts(parts: Seq<Option<Seq<char>>>) -> Seq<Seq<char>>
    decreases parts.len(),
{
    if parts.len() > 0 && is_present_part(parts[0]) {
        seq![trim(parts[0]->0)] + leading_parts(parts.drop_first())
    } else {
        seq![]
    }
}

/// `pieces` joined with '.' between neighbours.
pub open spec fn join_dots(pieces: Seq<Seq<char>>) -> Seq<char>
    decreases pieces.len(),
{
    if pieces.len() == 0 {
        seq![]
    } else if pieces.len() == 1 {
        pieces[0]
    } else {
        join_dots(pieces.drop_last()) + seq!['.'] + pieces.last()
    }
}

/// The dotted version assembled from `parts`, or `None` when the first
/// component is already absent or blank.
pub open spec fn version_spec(parts: Seq<Option<Seq<char>>>) -> Option<Seq<char>> {
    let run = leading_parts(parts);
    if run.len() == 0 {
        None
    } else {
        Some(join_dots(run))
    }
}

/// Assembles a dotted version string from its components, keeping only the
/// leading run of present ones (`"17", None, "3"` gives `"17"`). `None` when
/// no component leads.
pub fn version(parts: &[Option<&str>]) -> (r: Option<String>)
    ensures
        r.deep_view() == version_spec(parts.deep_view()),
{
    let ghost view = parts.deep_view();
    let ghost mut pieces: Seq<Seq<char>> = seq![];
    let mut out = String::new();
    let mut count: usize = 0;
    let mut done = false;
    let mut i: usize = 0;
    proof {
        reveal_strlit(".");
        assert(view.skip(0) =~= view);
    }
    while i < parts.len() && !done
        invariant
            view == parts.deep_view(),
            i <= parts.len(),
            count == pieces.len(),
            count <= i,
            out@ == join_dots(pieces),
            leading_parts(view) == pieces + (if done {
                seq![]
            } else {
                leading_parts(view.skip(i as int))
            }),
        decreases 2 * (parts.len() - i) + if done { 0int } else { 1int },
    {
        let ghost rest = view.skip(i as int);
        assert(rest.drop_first() =~= view.skip(i + 1));
        match parts[i] {
            Some(v) => {
                let t = trim_str(v);
                if t.unicode_len() > 0 {
                    proof {
                        assert(rest[0] == Some(v@));
                        assert(leading_parts(rest) == seq![t@] + leading_parts(view.skip(i + 1)));
                        assert(pieces.push(t@).drop_last() =~= pieces);
                        assert(pieces + leading_parts(rest) =~= pieces.push(t@) + leading_parts(
                            view.skip(i + 1),
                        ));
                    }
                    if count > 0 {
                        out.append(".");
                    }
                    out.append(t);
                    proof {
                        reveal_strlit(".");
                        if count == 0 {
                            assert(out@ =~= join_dots(pieces.push(t@)));
                        } else {
                            assert(out@ =~= join_dots(pieces) + seq!['.'] + t@);
                        }
                        pieces = pieces.push(t@);
                    }
                    count = count + 1;
                    i = i + 1;
                } else {
                    assert(leading_parts(rest) =~= seq![]);
                    done = true;
                }
            },
            None => {
                assert(leading_parts(rest) =~= seq![]);
                done = true;
            },
        }
    }
    proof {
        if !done {
            assert(view.skip(i as int) =~= seq![]);
        }
        assert(leading_parts(view) =~= pieces);
    }
    if count == 0 {
        None
    } else {
        Some(out)
    }
}

// ---------------------------------------------------------------------------
// Parsing
// ---------------------------------------------------------------------------

/// The worker's fields for what uap-core reported (`c`): families and brand
/// normalized, versions assembled only for a known family, and device and
/// brand left out for a spider.
pub open spec fn normalize(c: RawClientView) -> ParsedView {
    let browser = norm_family_spec(c.browser_family);
    let os = norm_family_spec(c.os_family);
    let is_bot = c.device_family == spider_word();
    ParsedView {
        browser,
        browser_version: if browser is Some {
            version_spec(seq![c.browser_major, c.browser_minor, c.browser_patch])
        } else {
            None
        },
        os,
        os_version: if os is Some {
            version_spec(seq![c.os_major, c.os_minor, c.os_patch, c.os_patch_minor])
        } else {
            None
        },
        device: if is_bot {
            None
        } else {
            norm_family_spec(c.device_family)
        },
        brand: if is_bot {
            None
        } else {
            norm_opt_spec(c.device_brand)
        },
        is_bot,
    }
}

/// What parsing the User-Agent `ua` against the database `db` gives.
pub open spec fn parse_spec(db: Seq<char>, ua: Seq<char>) -> ParsedView {
    normalize(uap_client(db, bounded(ua)))
}

fn opt_str(value: &Option<String>) -> (r: Option<&str>)
    ensures
        r.deep_view() == value.deep_view(),
{
    match value {
        Some(s) => Some(s.as_str()),
        None => None,
    }
}

/// Maps what uap-core reported for one User-Agent into the worker's fields.
pub fn from_client(c: &RawClient) -> (p: Parsed)
    ensures
        p@ == normalize(c@),
{
    let browser = norm_family(c.browser_family.as_str());
    let browser_version = if browser.is_some() {
        let parts = [opt_str(&c.browser_major), opt_str(&c.browser_minor), opt_str(&c.browser_patch)];
        assert(parts.deep_view() =~= seq![
            c.browser_major.deep_view(),
            c.browser_minor.deep_view(),
            c.browser_patch.deep_view(),
        ]);
        version(&parts)
    } else {
        None
    };
    let os = norm_family(c.os_family.as_str());
    let os_version = if os.is_some() {
        let parts = [
            opt_str(&c.os_major),
            opt_str(&c.os_minor),
            opt_str(&c.os_patch),
            opt_str(&c.os_patch_minor),
        ];
        assert(parts.deep_view() =~= seq![
            c.os_major.deep_view(),
            c.os_minor.deep_view(),
            c.os_patch.deep_view(),
            c.os_patch_minor.deep_view(),
        ]);
        version(&parts)
    } else {
        None
    };
    let is_bot = is_spider(c.device_family.as_str());
    let (device, brand) = if is_bot {
        (None, None)
    } else {
        (norm_family(c.device_family.as_str()), norm_opt(opt_str(&c.device_brand)))
    };
    Parsed { browser, browser_version, os, os_version, device, brand, is_bot }
}

/// Parses a User-Agent string into all fields at once.
pub fn parse(parser: &UaParser, ua: &str) -> (p: Parsed)
    ensures
        p@ == parse_spec(parser@, ua@),
{
    let ua = bound(ua);
    let client = uap_parse(parser, ua);
    from_client(&client)
}

/// `ua_browser`: the browser/client family (e.g. "Chrome"), or `None`.
pub fn browser(parser: &UaParser, ua: &str) -> (r: Option<String>)
    ensures
        r.deep_view() == parse_spec(parser@, ua@).browser,
{
    parse(parser, ua).browser
}

/// `ua_browser_version`: the dotted browser version (e.g. "120.0.0"), or
/// `None`.
pub fn browser_version(parser: &UaParser, ua: &str) -> (r: Option<String>)
    ensures
        r.deep_view() == parse_spec(parser@, ua@).browser_version,
{
    parse(parser, ua).browser_version
}

/// `ua_os`: the operating-system family (e.g. "Windows", "iOS"), or `None`.
pub fn os(parser: &UaParser, ua: &str) -> (r: Option<String>)
    ensures
        r.deep_view() == parse_spec(parser@, ua@).os,
{
    parse(parser, ua).os
}

/// `ua_os_version`: the dotted OS version (e.g. "10", "17.0"), or `None`.
pub fn os_version(parser: &UaParser, ua: &str) -> (r: Option<String>)
    ensures
        r.deep_view() == parse_spec(parser@, ua@).os_version,
{
    parse(parser, ua).os_version
}

/// `ua_device`: the device family or model (e.g. "iPhone"), or `None`.
pub fn device(parser: &UaParser, ua: &str) -> (r: Option<String>)
    ensures
        r.deep_view() == parse_spec(parser@, ua@).device,
{
    parse(parser, ua).device
}

/// `ua_device_brand`: the device brand (e.g. "Apple"), or `None`.
pub fn device_brand(parser: &UaParser, ua: &str) -> (r: Option<String>)
    ensures
        r.deep_view() == parse_spec(parser@, ua@).brand,
{
    parse(parser, ua).brand
}

/// `ua_is_bot`: whether the User-Agent is a spider or crawler (uap device
/// family "Spider").
pub fn is_bot(parser: &UaParser, ua: &str) -> (b: bool)
    ensures
        b == parse_spec(parser@, ua@).is_bot,
{
    let p = parse(parser, bound(ua));
    proof {
        lemma_bounded(ua@);
    }
    p.is_bot
}

} // verus!
