//! What holds of every parse, whatever the User-Agent and the database.

use vstd::prelude::*;
use vstd::utf8::encode_utf8;

use crate::json::json_string;
use crate::meta::{json_list, keywords_json_spec, kept_keywords, object_tags_spec, split_commas};
use crate::scalar::fields::{
    field_column, field_docs, field_name, field_texts, fields_category, is_bot_column, Field,
};
use crate::scalar::parse::parse_column;
use crate::useragent::{join_dots, leading_parts};
use crate::text::{is_white_space, name_key, other_word, spider_word, trim, trim_end, trim_start};
use crate::uap::{uap_client, RawClientView};
use crate::useragent::{
    bounded, is_present_part, lemma_bounded, normalize, parse_spec, version_spec, MAX_INPUT_BYTES,
};

verus! {

/// A reported family is never the "Other" sentinel and never empty; a
/// reported brand is never blank.
pub proof fn lemma_reported_names_are_known(db: Seq<char>, ua: Seq<char>)
    ensures
        parse_spec(db, ua).browser matches Some(b) ==> b.len() > 0 && b != other_word(),
        parse_spec(db, ua).os matches Some(o) ==> o.len() > 0 && o != other_word(),
        parse_spec(db, ua).device matches Some(d) ==> d.len() > 0 && d != other_word(),
        parse_spec(db, ua).brand matches Some(b) ==> trim(b).len() > 0,
{
}

/// A spider or crawler has no device and no brand.
pub proof fn lemma_bot_has_no_device(db: Seq<char>, ua: Seq<char>)
    ensures
        parse_spec(db, ua).is_bot ==> parse_spec(db, ua).device is None && parse_spec(
            db,
            ua,
        ).brand is None,
{
}

/// The bot flag is exactly whether uap-core's device family is "Spider".
pub proof fn lemma_bot_is_spider_family(db: Seq<char>, ua: Seq<char>)
    ensures
        parse_spec(db, ua).is_bot == (uap_client(db, bounded(ua)).device_family == spider_word()),
{
}

/// A version is only reported together with its family.
pub proof fn lemma_versions_need_family(db: Seq<char>, ua: Seq<char>)
    ensures
        parse_spec(db, ua).browser is None ==> parse_spec(db, ua).browser_version is None,
        parse_spec(db, ua).os is None ==> parse_spec(db, ua).os_version is None,
{
}

/// When uap-core recognizes nothing (every family "Other", no brand), every
/// field is unknown and the User-Agent is not a bot.
pub proof fn lemma_unrecognized_is_all_unknown(c: RawClientView)
    requires
        c.browser_family == other_word(),
        c.os_family == other_word(),
        c.device_family == other_word(),
        c.device_brand is None,
    ensures
        normalize(c).browser is None,
        normalize(c).browser_version is None,
        normalize(c).os is None,
        normalize(c).os_version is None,
        normalize(c).device is None,
        normalize(c).brand is None,
        !normalize(c).is_bot,
{
    assert(trim(other_word()) =~= other_word()) by {
        assert(!crate::text::is_white_space('O'));
        assert(!crate::text::is_white_space('r'));
        assert(other_word().drop_first() =~= seq!['t', 'h', 'e', 'r']);
        assert(other_word().last() == 'r');
    }
    assert(other_word() != spider_word()) by {
        assert(other_word().len() != spider_word().len());
    }
}

/// A version is reported exactly when its first component is present and not
/// blank.
pub proof fn lemma_version_needs_first_part(parts: Seq<Option<Seq<char>>>)
    ensures
        version_spec(parts) is Some <==> parts.len() > 0 && is_present_part(parts[0]),
{
}

/// Only the first [`MAX_INPUT_BYTES`] bytes (cut at a character boundary)
/// decide the parse: a User-Agent parses as its bounded prefix does.
pub proof fn lemma_parse_sees_bounded_prefix(db: Seq<char>, ua: Seq<char>)
    ensures
        parse_spec(db, ua) == parse_spec(db, bounded(ua)),
        encode_utf8(ua).len() <= MAX_INPUT_BYTES ==> bounded(ua) == ua,
{
    lemma_bounded(ua);
}

/// Every scalar gives one output row per input row; a NULL row gives NULL,
/// and for `ua_is_bot` and `ua_parse` a non-NULL row gives a non-NULL result.
pub proof fn lemma_null_in_null_out(f: Field, db: Seq<char>, rows: Seq<Option<Seq<char>>>, i: int)
    requires
        0 <= i < rows.len(),
    ensures
        field_column(f, db, rows).len() == rows.len(),
        is_bot_column(db, rows).len() == rows.len(),
        parse_column(db, rows).len() == rows.len(),
        rows[i] is None ==> field_column(f, db, rows)[i] is None,
        rows[i] is None <==> is_bot_column(db, rows)[i] is None,
        rows[i] is None <==> parse_column(db, rows)[i] is None,
{
}

proof fn lemma_split_commas_nonempty(s: Seq<char>)
    ensures
        split_commas(s).len() >= 1,
    decreases s.len(),
{
    if s.len() > 0 {
        lemma_split_commas_nonempty(s.drop_last());
    }
}

/// Splitting at a comma splits the pieces.
proof fn lemma_split_commas_concat(x: Seq<char>, b: Seq<char>)
    ensures
        split_commas(x + seq![','] + b) == split_commas(x) + split_commas(b),
    decreases b.len(),
{
    let s = x + seq![','] + b;
    if b.len() == 0 {
        assert(s.drop_last() =~= x);
        assert(split_commas(b) =~= seq![seq![]]);
        assert(split_commas(s) =~= split_commas(x) + split_commas(b));
    } else {
        let b0 = b.drop_last();
        let c = b.last();
        assert(s.drop_last() =~= x + seq![','] + b0);
        lemma_split_commas_concat(x, b0);
        lemma_split_commas_nonempty(b0);
        let head = split_commas(x);
        let tail = split_commas(b0);
        if c == ',' {
            assert(split_commas(s) =~= split_commas(x) + split_commas(b));
        } else {
            let whole = head + tail;
            assert(whole.update(whole.len() - 1, whole.last().push(c)) =~= head + tail.update(
                tail.len() - 1,
                tail.last().push(c),
            ));
        }
    }
}

/// A piece without commas splits into itself.
proof fn lemma_split_commas_single(s: Seq<char>)
    requires
        forall|i: int| 0 <= i < s.len() ==> s[i] != ',',
    ensures
        split_commas(s) == seq![s],
    decreases s.len(),
{
    if s.len() == 0 {
        assert(s =~= Seq::<char>::empty());
    } else {
        lemma_split_commas_single(s.drop_last());
        assert(s[s.len() - 1] != ',');
        assert(s.drop_last().push(s.last()) =~= s);
        assert(seq![s.drop_last()].update(0, s.drop_last().push(s.last())) =~= seq![s]);
    }
}

/// Keeping keywords works piece by piece.
proof fn lemma_kept_keywords_concat(a: Seq<Seq<char>>, b: Seq<Seq<char>>)
    ensures
        kept_keywords(a + b) == kept_keywords(a) + kept_keywords(b),
    decreases b.len(),
{
    if b.len() == 0 {
        assert(a + b =~= a);
        assert(kept_keywords(a) + kept_keywords(b) =~= kept_keywords(a));
    } else {
        assert((a + b).drop_last() =~= a + b.drop_last());
        lemma_kept_keywords_concat(a, b.drop_last());
        let k = kept_keywords(a);
        let r = kept_keywords(b.drop_last());
        assert((k + r).push(trim(b.last())) =~= k + r.push(trim(b.last())));
    }
}

/// A name padded with one leading space trims back to the name.
proof fn lemma_trim_padded(n: Seq<char>)
    requires
        n.len() > 0,
        !is_white_space(n[0]),
        !is_white_space(n.last()),
    ensures
        trim(seq![' '] + n) == n,
{
    let p = seq![' '] + n;
    assert(p.drop_first() =~= n);
    assert(p[0] == ' ');
    assert(trim_start(p) == trim_start(n));
    assert(trim_start(n) == n);
    assert(trim_end(n) == n);
}

/// The facts about a field's name that its documentation laws use.
proof fn lemma_field_name_shape(f: Field)
    ensures
        field_name(f).len() > 0,
        field_name(f)[0] == 'u',
        !is_white_space(field_name(f).last()),
        forall|i: int| 0 <= i < field_name(f).len() ==> field_name(f)[i] != ',',
{
    reveal_strlit("ua_browser");
    reveal_strlit("ua_browser_version");
    reveal_strlit("ua_os");
    reveal_strlit("ua_os_version");
    reveal_strlit("ua_device");
    reveal_strlit("ua_device_brand");
}

/// The tags of every field scalar: five of them, keyed in order title, LLM
/// narrative, Markdown narrative, keywords and category; the category is
/// "scalar/fields.rs"; the LLM narrative opens with a `## <name>` line; and
/// the keywords tag is a JSON array of strings whose terms include the
/// scalar's name and "user-agent".
pub proof fn lemma_field_tags_shape(f: Field)
    ensures
        ({
            let (title, doc_llm, doc_md, keywords) = field_docs(f);
            let tags = object_tags_spec(title, doc_llm, doc_md, keywords, fields_category());
            let terms = kept_keywords(split_commas(keywords));
            &&& tags.len() == 5
            &&& tags[0].0 == "vgi.title"@
            &&& tags[1].0 == "vgi.doc_llm"@
            &&& tags[2].0 == "vgi.doc_md"@
            &&& tags[3].0 == "vgi.keywords"@
            &&& tags[4].0 == "vgi.category"@
            &&& tags[4].1 == "scalar/fields.rs"@
            &&& tags[3].1 == seq!['['] + json_list(terms) + seq![']']
            &&& tags[1].1.subrange(0, field_name(f).len() as int + 4) == "## "@ + field_name(f) + "\n"@
            &&& terms.contains(field_name(f))
            &&& terms.contains("user-agent"@)
        }),
{
    let n = field_name(f);
    let (title, llm_body, md_text, head) = field_texts(f);
    let keywords = field_docs(f).3;
    lemma_field_name_shape(f);
    reveal_strlit("## ");
    reveal_strlit("\n\n");
    reveal_strlit("\n");
    reveal_strlit(", ");
    reveal_strlit(", user-agent");
    reveal_strlit("user-agent");
    assert(field_docs(f).1.subrange(0, n.len() as int + 4) =~= "## "@ + n + "\n"@);
    let padded = seq![' '] + n;
    let tail = seq![' ', 'u', 's', 'e', 'r', '-', 'a', 'g', 'e', 'n', 't'];
    assert(keywords =~= (head + seq![','] + padded) + seq![','] + tail);
    lemma_split_commas_concat(head + seq![','] + padded, tail);
    lemma_split_commas_concat(head, padded);
    assert forall|i: int| 0 <= i < padded.len() implies padded[i] != ',' by {
        if i > 0 {
            assert(padded[i] == n[i - 1]);
        }
    }
    lemma_split_commas_single(padded);
    lemma_split_commas_single(tail);
    let pieces_head = split_commas(head);
    assert(split_commas(keywords) == pieces_head + seq![padded] + seq![tail]);
    lemma_kept_keywords_concat(pieces_head + seq![padded], seq![tail]);
    lemma_kept_keywords_concat(pieces_head, seq![padded]);
    assert(seq![padded].drop_last() =~= Seq::<Seq<char>>::empty());
    assert(seq![tail].drop_last() =~= Seq::<Seq<char>>::empty());
    lemma_trim_padded(n);
    assert(tail =~= seq![' '] + "user-agent"@);
    lemma_trim_padded("user-agent"@);
    let kh = kept_keywords(pieces_head);
    let terms = kept_keywords(split_commas(keywords));
    assert(kept_keywords(seq![padded]) =~= seq![n]) by {
        assert(seq![padded].last() == padded);
        assert(kept_keywords(seq![padded].drop_last()) =~= Seq::<Seq<char>>::empty());
        assert(Seq::<Seq<char>>::empty().push(n) =~= seq![n]);
    }
    assert(kept_keywords(seq![tail]) =~= seq!["user-agent"@]) by {
        assert(seq![tail].last() == tail);
        assert(kept_keywords(seq![tail].drop_last()) =~= Seq::<Seq<char>>::empty());
        assert(Seq::<Seq<char>>::empty().push("user-agent"@) =~= seq!["user-agent"@]);
    }
    assert(terms =~= kh + seq![n] + seq!["user-agent"@]);
    assert(terms[kh.len() as int] == n);
    assert(terms[kh.len() as int + 1] == "user-agent"@);
}

/// The titles and narratives of the field scalars: a title is never just the
/// scalar's name written loosely, the LLM and Markdown narratives differ, and
/// no two field scalars share a title.
pub proof fn lemma_field_titles_distinct(f: Field, g: Field)
    ensures
        name_key(field_docs(f).0) != name_key(field_name(f)),
        field_docs(f).1 != field_docs(f).2,
        f != g ==> field_docs(f).0 != field_docs(g).0,
{
    lemma_field_name_shape(f);
    reveal_strlit("Browser Family Name");
    reveal_strlit("Browser Version String");
    reveal_strlit("Operating System Name");
    reveal_strlit("Operating System Version");
    reveal_strlit("Device Family Model");
    reveal_strlit("Device Brand Maker");
    reveal_strlit("## ");
    reveal_strlit("# ");
    let title = field_docs(f).0;
    let n = field_name(f);
    assert(title.len() > 0 && 'A' <= title[0] && title[0] <= 'Z' && title[0] != 'U');
    assert(name_key(title) == seq![crate::text::ascii_lower(title[0])] + name_key(title.drop_first()));
    assert(name_key(n) == seq!['u'] + name_key(n.drop_first()));
    assert(name_key(title)[0] != name_key(n)[0]);
    assert(field_docs(f).1[1] == '#');
    assert(field_docs(f).2[1] == ' ');
}

// ---------------------------------------------------------------------------
// What each reported field is, in terms of uap-core's own report
// ---------------------------------------------------------------------------

/// Whether a uap family names something: it is not blank and not "Other".
pub open spec fn names_something(family: Seq<char>) -> bool {
    trim(family).len() > 0 && trim(family) != other_word()
}

/// Whether a uap version component is given: present and not blank.
pub open spec fn is_given(part: Option<Seq<char>>) -> bool {
    part is Some && trim(part->0).len() > 0
}

/// A given component without its surrounding white space.
pub open spec fn given_text(part: Option<Seq<char>>) -> Seq<char> {
    trim(part->0)
}

proof fn lemma_leading_three(a: Option<Seq<char>>, b: Option<Seq<char>>, c: Option<Seq<char>>)
    ensures
        leading_parts(seq![a, b, c]) == (if !is_given(a) {
            Seq::<Seq<char>>::empty()
        } else if !is_given(b) {
            seq![given_text(a)]
        } else if !is_given(c) {
            seq![given_text(a), given_text(b)]
        } else {
            seq![given_text(a), given_text(b), given_text(c)]
        }),
{
    let s = seq![a, b, c];
    let e = Seq::<Option<Seq<char>>>::empty();
    let none = Seq::<Seq<char>>::empty();
    assert(s[0] == a && s.drop_first() =~= seq![b, c]);
    assert(seq![b, c][0] == b && seq![b, c].drop_first() =~= seq![c]);
    assert(seq![c][0] == c && seq![c].drop_first() =~= e);
    assert(leading_parts(e) == none);
    let lc = leading_parts(seq![c]);
    assert(lc == (if is_given(c) { seq![given_text(c)] + none } else { none }));
    assert(seq![given_text(c)] + none =~= seq![given_text(c)]);
    let lbc = leading_parts(seq![b, c]);
    assert(lbc == (if is_given(b) { seq![given_text(b)] + lc } else { none }));
    assert(seq![given_text(b)] + seq![given_text(c)] =~= seq![given_text(b), given_text(c)]);
    assert(seq![given_text(b)] + none =~= seq![given_text(b)]);
    assert(leading_parts(s) == (if is_given(a) { seq![given_text(a)] + lbc } else { none }));
    assert(seq![given_text(a)] + seq![given_text(b), given_text(c)] =~= seq![
        given_text(a),
        given_text(b),
        given_text(c),
    ]);
    assert(seq![given_text(a)] + seq![given_text(b)] =~= seq![given_text(a), given_text(b)]);
    assert(seq![given_text(a)] + none =~= seq![given_text(a)]);
}

proof fn lemma_leading_four(
    a: Option<Seq<char>>,
    b: Option<Seq<char>>,
    c: Option<Seq<char>>,
    d: Option<Seq<char>>,
)
    ensures
        leading_parts(seq![a, b, c, d]) == (if !is_given(a) {
            Seq::<Seq<char>>::empty()
        } else if !is_given(b) {
            seq![given_text(a)]
        } else if !is_given(c) {
            seq![given_text(a), given_text(b)]
        } else if !is_given(d) {
            seq![given_text(a), given_text(b), given_text(c)]
        } else {
            seq![given_text(a), given_text(b), given_text(c), given_text(d)]
        }),
{
    let s = seq![a, b, c, d];
    assert(s[0] == a && s.drop_first() =~= seq![b, c, d]);
    lemma_leading_three(b, c, d);
    let r = leading_parts(seq![b, c, d]);
    assert(leading_parts(s) == (if is_given(a) {
        seq![given_text(a)] + r
    } else {
        Seq::<Seq<char>>::empty()
    }));
    assert(seq![given_text(a)] + Seq::<Seq<char>>::empty() =~= seq![given_text(a)]);
    assert(seq![given_text(a)] + seq![given_text(b)] =~= seq![given_text(a), given_text(b)]);
    assert(seq![given_text(a)] + seq![given_text(b), given_text(c)] =~= seq![
        given_text(a),
        given_text(b),
        given_text(c),
    ]);
    assert(seq![given_text(a)] + r =~= (if !is_given(b) {
        seq![given_text(a)]
    } else if !is_given(c) {
        seq![given_text(a), given_text(b)]
    } else if !is_given(d) {
        seq![given_text(a), given_text(b), given_text(c)]
    } else {
        seq![given_text(a), given_text(b), given_text(c), given_text(d)]
    }));
}

proof fn lemma_join_small(x: Seq<char>, y: Seq<char>, z: Seq<char>, w: Seq<char>)
    ensures
        join_dots(seq![x]) == x,
        join_dots(seq![x, y]) == x + seq!['.'] + y,
        join_dots(seq![x, y, z]) == x + seq!['.'] + y + seq!['.'] + z,
        join_dots(seq![x, y, z, w]) == x + seq!['.'] + y + seq!['.'] + z + seq!['.'] + w,
{
    let d = seq!['.'];
    assert(seq![x, y].drop_last() =~= seq![x]);
    assert(join_dots(seq![x]) == x);
    assert(join_dots(seq![x, y]) == x + d + y);
    assert(seq![x, y, z].drop_last() =~= seq![x, y]);
    assert(join_dots(seq![x, y, z]) == join_dots(seq![x, y]) + d + z);
    assert(join_dots(seq![x, y, z]) =~= x + d + y + d + z);
    assert(seq![x, y, z, w].drop_last() =~= seq![x, y, z]);
    assert(join_dots(seq![x, y, z, w]) == join_dots(seq![x, y, z]) + d + w);
    assert(join_dots(seq![x, y, z, w]) =~= x + d + y + d + z + d + w);
}

/// Every field of the parse of a User-Agent, stated from what uap-core reports
/// for its bounded prefix: the browser and OS are their families (trimmed),
/// unknown when blank or "Other"; the browser version joins with '.' the
/// leading given components among the user-agent major, minor and patch; the
/// OS version does the same with the OS major, minor, patch and patch-minor;
/// both versions are reported only with a known family; the User-Agent is a
/// bot exactly when uap's device family is "Spider", whatever else it
/// reports; a bot has no device and no brand, otherwise the device is the
/// device family (unknown when blank or "Other") and the brand is the device
/// brand when it is not blank.
pub proof fn lemma_parse_fields(db: Seq<char>, ua: Seq<char>)
    ensures
        ({
            let c = uap_client(db, bounded(ua));
            let p = parse_spec(db, ua);
            let (bma, bmi, bpa) = (c.browser_major, c.browser_minor, c.browser_patch);
            let (oma, omi, opa, opm) = (c.os_major, c.os_minor, c.os_patch, c.os_patch_minor);
            &&& p.browser == (if names_something(c.browser_family) {
                Some(trim(c.browser_family))
            } else {
                None
            })
            &&& p.os == (if names_something(c.os_family) {
                Some(trim(c.os_family))
            } else {
                None
            })
            &&& !names_something(c.browser_family) ==> p.browser_version is None
            &&& names_something(c.browser_family) && !is_given(bma) ==> p.browser_version is None
            &&& names_something(c.browser_family) && is_given(bma) && !is_given(bmi)
                ==> p.browser_version == Some(given_text(bma))
            &&& names_something(c.browser_family) && is_given(bma) && is_given(bmi) && !is_given(
                bpa,
            ) ==> p.browser_version == Some(given_text(bma) + seq!['.'] + given_text(bmi))
            &&& names_something(c.browser_family) && is_given(bma) && is_given(bmi) && is_given(
                bpa,
            ) ==> p.browser_version == Some(
                given_text(bma) + seq!['.'] + given_text(bmi) + seq!['.'] + given_text(bpa),
            )
            &&& !names_something(c.os_family) ==> p.os_version is None
            &&& names_something(c.os_family) && !is_given(oma) ==> p.os_version is None
            &&& names_something(c.os_family) && is_given(oma) && !is_given(omi) ==> p.os_version
                == Some(given_text(oma))
            &&& names_something(c.os_family) && is_given(oma) && is_given(omi) && !is_given(opa)
                ==> p.os_version == Some(given_text(oma) + seq!['.'] + given_text(omi))
            &&& names_something(c.os_family) && is_given(oma) && is_given(omi) && is_given(opa)
                && !is_given(opm) ==> p.os_version == Some(
                given_text(oma) + seq!['.'] + given_text(omi) + seq!['.'] + given_text(opa),
            )
            &&& names_something(c.os_family) && is_given(oma) && is_given(omi) && is_given(opa)
                && is_given(opm) ==> p.os_version == Some(
                given_text(oma) + seq!['.'] + given_text(omi) + seq!['.'] + given_text(opa)
                    + seq!['.'] + given_text(opm),
            )
            &&& p.is_bot == (c.device_family == spider_word())
            &&& p.device == (if c.device_family == spider_word() {
                None
            } else if names_something(c.device_family) {
                Some(trim(c.device_family))
            } else {
                None
            })
            &&& p.brand == (if c.device_family != spider_word() && is_given(c.device_brand) {
                c.device_brand
            } else {
                None
            })
        }),
{
    let c = uap_client(db, bounded(ua));
    lemma_leading_three(c.browser_major, c.browser_minor, c.browser_patch);
    lemma_leading_four(c.os_major, c.os_minor, c.os_patch, c.os_patch_minor);
    lemma_join_small(
        given_text(c.browser_major),
        given_text(c.browser_minor),
        given_text(c.browser_patch),
        given_text(c.browser_patch),
    );
    lemma_join_small(
        given_text(c.os_major),
        given_text(c.os_minor),
        given_text(c.os_patch),
        given_text(c.os_patch_minor),
    );
}

/// On a non-NULL row, the scalars agree with one another and with the parse
/// of that row: the `ua_parse` struct is the whole parse, each single-field
/// scalar gives the same-named field of it (the browser family is kept for
/// bots too), and `ua_is_bot` is whether uap's device family for the row is
/// "Spider".
pub proof fn lemma_row_scalars_agree(db: Seq<char>, rows: Seq<Option<Seq<char>>>, i: int)
    requires
        0 <= i < rows.len(),
        rows[i] is Some,
    ensures
        ({
            let ua = rows[i]->0;
            let p = parse_spec(db, ua);
            &&& parse_column(db, rows)[i] == Some(p)
            &&& field_column(Field::Browser, db, rows)[i] == p.browser
            &&& field_column(Field::BrowserVersion, db, rows)[i] == p.browser_version
            &&& field_column(Field::Os, db, rows)[i] == p.os
            &&& field_column(Field::OsVersion, db, rows)[i] == p.os_version
            &&& field_column(Field::Device, db, rows)[i] == p.device
            &&& field_column(Field::DeviceBrand, db, rows)[i] == p.brand
            &&& is_bot_column(db, rows)[i] == Some(
                uap_client(db, bounded(ua)).device_family == spider_word(),
            )
        }),
{
}

proof fn lemma_trim_start_shape(s: Seq<char>) -> (i: int)
    ensures
        0 <= i <= s.len(),
        trim_start(s) == s.subrange(i, s.len() as int),
        forall|k: int| 0 <= k < i ==> is_white_space(#[trigger] s[k]),
        i < s.len() ==> !is_white_space(s[i]),
    decreases s.len(),
{
    if s.len() > 0 && is_white_space(s[0]) {
        let j = lemma_trim_start_shape(s.drop_first());
        assert(s.drop_first().subrange(j, s.drop_first().len() as int) =~= s.subrange(
            j + 1,
            s.len() as int,
        ));
        assert forall|k: int| 0 <= k < j + 1 implies is_white_space(#[trigger] s[k]) by {
            if k > 0 {
                assert(s[k] == s.drop_first()[k - 1]);
            }
        }
        assert(j + 1 < s.len() ==> s[j + 1] == s.drop_first()[j]);
        j + 1
    } else {
        assert(s.subrange(0, s.len() as int) =~= s);
        0
    }
}

proof fn lemma_trim_end_shape(s: Seq<char>) -> (j: int)
    ensures
        0 <= j <= s.len(),
        trim_end(s) == s.subrange(0, j),
        forall|k: int| j <= k < s.len() ==> is_white_space(#[trigger] s[k]),
        j > 0 ==> !is_white_space(s[j - 1]),
    decreases s.len(),
{
    if s.len() > 0 && is_white_space(s.last()) {
        let j = lemma_trim_end_shape(s.drop_last());
        assert(s.drop_last().subrange(0, j) =~= s.subrange(0, j));
        assert forall|k: int| j <= k < s.len() implies is_white_space(#[trigger] s[k]) by {
            if k < s.len() - 1 {
                assert(s[k] == s.drop_last()[k]);
            }
        }
        assert(j > 0 ==> s[j - 1] == s.drop_last()[j - 1]);
        j
    } else {
        assert(s.subrange(0, s.len() as int) =~= s);
        s.len() as int
    }
}

/// Trimming cuts white space off both ends and nothing else: the result is
/// the run of `s` that starts at the returned offset, everything before and
/// after that run is white space, and a non-empty result neither starts nor
/// ends with white space.
pub proof fn lemma_trim_shape(s: Seq<char>) -> (i: int)
    ensures
        0 <= i,
        i + trim(s).len() <= s.len(),
        trim(s) == s.subrange(i, i + trim(s).len()),
        forall|k: int| 0 <= k < i ==> is_white_space(#[trigger] s[k]),
        forall|k: int| i + trim(s).len() <= k < s.len() ==> is_white_space(#[trigger] s[k]),
        trim(s).len() > 0 ==> !is_white_space(trim(s)[0]) && !is_white_space(trim(s).last()),
{
    let i = lemma_trim_start_shape(s);
    let u = trim_start(s);
    let j = lemma_trim_end_shape(u);
    assert(trim(s) =~= s.subrange(i, i + j));
    assert forall|k: int| i + j <= k < s.len() implies is_white_space(#[trigger] s[k]) by {
        assert(s[k] == u[k - i]);
    }
    if j > 0 {
        assert(trim(s)[0] == s[i]);
        assert(trim(s).last() == u[j - 1]);
    }
    i
}

proof fn lemma_join_prepend(x: Seq<char>, r: Seq<Seq<char>>)
    requires
        r.len() > 0,
    ensures
        join_dots(seq![x] + r) == x + seq!['.'] + join_dots(r),
    decreases r.len(),
{
    let d = seq!['.'];
    if r.len() == 1 {
        assert(seq![x] + r =~= seq![x, r[0]]);
        assert(seq![x, r[0]].drop_last() =~= seq![x]);
        assert(join_dots(seq![x, r[0]]) == join_dots(seq![x]) + d + r[0]);
    } else {
        assert((seq![x] + r).drop_last() =~= seq![x] + r.drop_last());
        lemma_join_prepend(x, r.drop_last());
        assert((seq![x] + r).last() == r.last());
        assert(join_dots(seq![x] + r) == join_dots(seq![x] + r.drop_last()) + d + r.last());
        assert(join_dots(r) == join_dots(r.drop_last()) + d + r.last());
        assert(x + d + join_dots(r.drop_last()) + d + r.last() =~= x + d + (join_dots(
            r.drop_last(),
        ) + d + r.last()));
    }
}

/// The dotted version, component by component: no components give no
/// version; otherwise an absent or blank first component gives none, and a
/// given one is trimmed and put in front of the version of the rest, with a
/// '.' between them when the rest has one.
pub proof fn lemma_version_by_components(a: Option<Seq<char>>, rest: Seq<Option<Seq<char>>>)
    ensures
        version_spec(Seq::<Option<Seq<char>>>::empty()) is None,
        version_spec(seq![a] + rest) == (if !is_given(a) {
            None
        } else {
            match version_spec(rest) {
                None => Some(given_text(a)),
                Some(v) => Some(given_text(a) + seq!['.'] + v),
            }
        }),
{
    let s = seq![a] + rest;
    assert(s[0] == a);
    assert(s.drop_first() =~= rest);
    let r = leading_parts(rest);
    if is_given(a) {
        assert(leading_parts(s) == seq![given_text(a)] + r);
        if r.len() == 0 {
            assert(seq![given_text(a)] + r =~= seq![given_text(a)]);
        } else {
            lemma_join_prepend(given_text(a), r);
        }
    }
}

proof fn lemma_json_list_len(items: Seq<Seq<char>>)
    ensures
        items.len() == 0 <==> json_list(items).len() == 0,
        items.len() > 0 ==> json_list(items).len() >= 2,
{
    if items.len() == 1 {
        assert(json_string(items[0]).len() >= 2);
    } else if items.len() > 1 {
        assert(json_string(items.last()).len() >= 2);
    }
}

proof fn lemma_json_list_concat(a: Seq<Seq<char>>, b: Seq<Seq<char>>)
    requires
        a.len() > 0,
        b.len() > 0,
    ensures
        json_list(a + b) == json_list(a) + seq![','] + json_list(b),
    decreases b.len(),
{
    let c = seq![','];
    if b.len() == 1 {
        assert((a + b).drop_last() =~= a);
        assert((a + b).last() == b[0]);
    } else {
        assert((a + b).drop_last() =~= a + b.drop_last());
        assert((a + b).last() == b.last());
        lemma_json_list_concat(a, b.drop_last());
        assert(json_list(a + b) == json_list(a + b.drop_last()) + c + json_string(b.last()));
        assert(json_list(b) == json_list(b.drop_last()) + c + json_string(b.last()));
        assert(json_list(a) + c + json_list(b.drop_last()) + c + json_string(b.last()) =~= json_list(
            a,
        ) + c + (json_list(b.drop_last()) + c + json_string(b.last())));
    }
}

/// A keyword list without commas is one keyword: its JSON array holds that
/// keyword trimmed, or nothing when it is blank.
pub proof fn lemma_keywords_json_single(k: Seq<char>)
    requires
        forall|i: int| 0 <= i < k.len() ==> k[i] != ',',
    ensures
        trim(k).len() > 0 ==> keywords_json_spec(k) == seq!['['] + json_string(trim(k)) + seq![']'],
        trim(k).len() == 0 ==> keywords_json_spec(k) == seq!['[', ']'],
{
    lemma_split_commas_single(k);
    let e = Seq::<Seq<char>>::empty();
    assert(seq![k].drop_last() =~= e);
    assert(seq![k].last() == k);
    assert(kept_keywords(e) == e);
    if trim(k).len() > 0 {
        assert(kept_keywords(seq![k]) =~= seq![trim(k)]);
    } else {
        assert(kept_keywords(seq![k]) =~= e);
        assert(json_list(e) =~= Seq::<char>::empty());
    }
}

/// Joining two keyword lists with a comma merges their JSON arrays: an empty
/// array on either side leaves the other one, and otherwise the two arrays'
/// items follow one another, separated by a comma.
pub proof fn lemma_keywords_json_split(a: Seq<char>, b: Seq<char>)
    ensures
        ({
            let ka = keywords_json_spec(a);
            let kb = keywords_json_spec(b);
            let k = keywords_json_spec(a + seq![','] + b);
            if ka.len() == 2 {
                k == kb
            } else if kb.len() == 2 {
                k == ka
            } else {
                k == ka.drop_last() + seq![','] + kb.drop_first()
            }
        }),
{
    lemma_split_commas_concat(a, b);
    let pa = split_commas(a);
    let pb = split_commas(b);
    lemma_kept_keywords_concat(pa, pb);
    let ta = kept_keywords(pa);
    let tb = kept_keywords(pb);
    lemma_json_list_len(ta);
    lemma_json_list_len(tb);
    let o = seq!['['];
    let cl = seq![']'];
    let ka = keywords_json_spec(a);
    let kb = keywords_json_spec(b);
    if ta.len() == 0 {
        assert(ta + tb =~= tb);
    } else if tb.len() == 0 {
        assert(ta + tb =~= ta);
    } else {
        lemma_json_list_concat(ta, tb);
        assert(ka.drop_last() =~= o + json_list(ta));
        assert(kb.drop_first() =~= json_list(tb) + cl);
        assert(o + (json_list(ta) + seq![','] + json_list(tb)) + cl =~= ka.drop_last() + seq![',']
            + kb.drop_first());
    }
}

} // verus!
