//! The per-object discovery and description metadata that every function of
//! the worker carries in its tags: `vgi.title`, `vgi.doc_llm`, `vgi.doc_md`,
//! `vgi.keywords` (a JSON array of search terms) and `vgi.category`.

use vstd::prelude::*;
use vstd::string::StringExecFns;

use crate::json::{json_string, json_string_literal};
use crate::text::{trim, trim_str};

verus! {

/// The pieces of `s` between commas, in order (one more than its commas).
pub open spec fn split_commas(s: Seq<char>) -> Seq<Seq<char>>
    decreases s.len(),
{
    if s.len() == 0 {
        seq![seq![]]
    } else {
        let init = split_commas(s.drop_last());
        if s.last() == ',' {
            init.push(seq![])
        } else {
            init.update(init.len() - 1, init.last().push(s.last()))
        }
    }
}

/// The pieces, each without surrounding white space, blank ones dropped.
pub open spec fn kept_keywords(pieces: Seq<Seq<char>>) -> Seq<Seq<char>>
    decreases pieces.len(),
{
    if pieces.len() == 0 {
        seq![]
    } else {
        let kept = kept_keywords(pieces.drop_last());
        let t = trim(pieces.last());
        if t.len() > 0 {
            kept.push(t)
        } else {
            kept
        }
    }
}

/// The JSON string literals of `items`, separated by commas.
pub open spec fn json_list(items: Seq<Seq<char>>) -> Seq<char>
    decreases items.len(),
{
    if items.len() == 0 {
        seq![]
    } else if items.len() == 1 {
        json_string(items[0])
    } else {
        json_list(items.drop_last()) + seq![','] + json_string(items.last())
    }
}

/// The JSON array of the keywords in the comma-separated list `keywords`.
pub open spec fn keywords_json_spec(keywords: Seq<char>) -> Seq<char> {
    seq!['['] + json_list(kept_keywords(split_commas(keywords))) + seq![']']
}

/// Adds one comma-separated piece to the JSON list under construction.
fn push_keyword(out: &mut String, count: usize, piece: &str, Ghost(kept): Ghost<Seq<Seq<char>>>) -> (n: usize)
    requires
        old(out)@ == json_list(kept),
        count == kept.len(),
        count < usize::MAX,
    ensures
        trim(piece@).len() > 0 ==> n == count + 1 && final(out)@ == json_list(kept.push(trim(piece@))),
        trim(piece@).len() == 0 ==> n == count && final(out)@ == old(out)@,
{
    let t = trim_str(piece);
    if t.unicode_len() == 0 {
        return count;
    }
    let quoted = match json_string_literal(t) {
        Ok(q) => q,
        Err(_) => {
            assert(false);
            return count;
        },
    };
    proof {
        reveal_strlit(",");
        assert(kept.push(t@).drop_last() =~= kept);
    }
    if count > 0 {
        out.append(",");
    }
    out.append(quoted.as_str());
    proof {
        if count == 0 {
            assert(final(out)@ =~= json_list(kept.push(t@)));
        } else {
            assert(final(out)@ =~= json_list(kept) + seq![','] + json_string(t@));
        }
    }
    count + 1
}

/// Serializes a comma-separated keyword list into the JSON array of strings
/// that `vgi.keywords` takes, e.g. `"a, b"` gives `["a","b"]`. Each keyword is
/// trimmed and blank entries are dropped.
pub fn keywords_json(keywords: &str) -> (r: String)
    ensures
        r@ == keywords_json_spec(keywords@),
{
    let n = keywords.unicode_len();
    let ghost s = keywords@;
    let ghost mut pieces: Seq<Seq<char>> = seq![];
    let mut body = String::new();
    let mut count: usize = 0;
    let mut start: usize = 0;
    let mut i: usize = 0;
    assert(s.take(0) =~= seq![]);
    assert(s.subrange(0, 0) =~= seq![]);
    while i < n
        invariant
            n == s.len(),
            s == keywords@,
            start <= i <= n,
            count <= pieces.len(),
            count + pieces.len() <= start,
            body@ == json_list(kept_keywords(pieces)),
            count == kept_keywords(pieces).len(),
            split_commas(s.take(i as int)) == pieces.push(s.subrange(start as int, i as int)),
        decreases n - i,
    {
        let c = keywords.get_char(i);
        assert(s.take(i + 1).drop_last() =~= s.take(i as int));
        assert(s.take(i + 1).last() == c);
        if c == ',' {
            let piece = keywords.substring_char(start, i);
            proof {
                lemma_kept_len(pieces);
            }
            let ghost before = count;
            count = push_keyword(&mut body, count, piece, Ghost(kept_keywords(pieces)));
            proof {
                if count > before {
                    assert(piece@.len() > 0) by {
                        if piece@.len() == 0 {
                            assert(trim(piece@) =~= piece@);
                        }
                    }
                }
                let p2 = pieces.push(piece@);
                assert(p2.drop_last() =~= pieces);
                assert(s.subrange(i + 1, i + 1) =~= Seq::<char>::empty());
                assert(split_commas(s.take(i + 1)) == split_commas(s.take(i as int)).push(seq![]));
                pieces = p2;
            }
            start = i + 1;
        } else {
            proof {
                let init = pieces.push(s.subrange(start as int, i as int));
                assert(s.subrange(start as int, i as int).push(c) =~= s.subrange(start as int, i + 1));
                assert(split_commas(s.take(i + 1)) == init.update(init.len() - 1, init.last().push(c)));
                assert(init.update(init.len() - 1, init.last().push(c)) =~= pieces.push(
                    s.subrange(start as int, i + 1),
                ));
            }
        }
        i = i + 1;
    }
    let piece = keywords.substring_char(start, n);
    proof {
        lemma_kept_len(pieces);
    }
    count = push_keyword(&mut body, count, piece, Ghost(kept_keywords(pieces)));
    proof {
        let p2 = pieces.push(piece@);
        assert(p2.drop_last() =~= pieces);
        assert(s.take(n as int) =~= s);
        assert(kept_keywords(split_commas(s)) == kept_keywords(p2));
    }
    let mut r = String::new();
    r.append("[");
    r.append(body.as_str());
    r.append("]");
    proof {
        reveal_strlit("[");
        reveal_strlit("]");
        assert(r@ =~= keywords_json_spec(keywords@));
    }
    r
}

proof fn lemma_kept_len(pieces: Seq<Seq<char>>)
    ensures
        kept_keywords(pieces).len() <= pieces.len(),
    decreases pieces.len(),
{
    if pieces.len() > 0 {
        lemma_kept_len(pieces.drop_last());
    }
}

/// A tag list as pairs of `char` sequences.
pub open spec fn tags_view(tags: Seq<(String, String)>) -> Seq<(Seq<char>, Seq<char>)> {
    tags.map_values(|t: (String, String)| (t.0@, t.1@))
}

/// The standard discovery and description tags of an object, in order.
pub open spec fn object_tags_spec(
    title: Seq<char>,
    doc_llm: Seq<char>,
    doc_md: Seq<char>,
    keywords: Seq<char>,
    category: Seq<char>,
) -> Seq<(Seq<char>, Seq<char>)> {
    seq![
        ("vgi.title"@, title),
        ("vgi.doc_llm"@, doc_llm),
        ("vgi.doc_md"@, doc_md),
        ("vgi.keywords"@, keywords_json_spec(keywords)),
        ("vgi.category"@, category),
    ]
}

/// Builds the standard per-object discovery and description tags. `keywords`
/// is a comma-separated list, stored as the JSON array `vgi.keywords` takes;
/// `category` names one of the schema's categories.
pub fn object_tags(
    title: &str,
    doc_llm: &str,
    doc_md: &str,
    keywords: &str,
    category: &str,
) -> (tags: Vec<(String, String)>)
    ensures
        tags_view(tags@) == object_tags_spec(title@, doc_llm@, doc_md@, keywords@, category@),
{
    let mut tags: Vec<(String, String)> = Vec::new();
    tags.push((String::from_str("vgi.title"), String::from_str(title)));
    tags.push((String::from_str("vgi.doc_llm"), String::from_str(doc_llm)));
    tags.push((String::from_str("vgi.doc_md"), String::from_str(doc_md)));
    tags.push((String::from_str("vgi.keywords"), keywords_json(keywords)));
    tags.push((String::from_str("vgi.category"), String::from_str(category)));
    assert(tags_view(tags@) =~= object_tags_spec(
        title@,
        doc_llm@,
        doc_md@,
        keywords@,
        category@,
    ));
    tags
}

} // verus!
