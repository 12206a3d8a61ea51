use crate::json::{json_document, parse, Json};
use crate::text::{chars_of, push_str, string_of};
use vstd::prelude::*;

verus! {

pub open spec fn has_prefix(s: Seq<char>, prefix: Seq<char>) -> bool {
    prefix.len() <= s.len() && s.take(prefix.len() as int) == prefix
}

pub open spec fn has_suffix(s: Seq<char>, suffix: Seq<char>) -> bool {
    suffix.len() <= s.len() && s.skip(s.len() - suffix.len()) == suffix
}

pub fn starts_with(s: &Vec<char>, prefix: &str) -> (b: bool)
    ensures
        b == has_prefix(s@, prefix@),
{
    let p = chars_of(prefix);
    if p.len() > s.len() {
        return false;
    }
    let mut i: usize = 0;
    while i < p.len()
        invariant
            i <= p.len() <= s.len(),
            p@ == prefix@,
            s@.take(i as int) == p@.take(i as int),
        decreases p.len() - i,
    {
        if s[i] != p[i] {
            assert(s@.take(p@.len() as int)[i as int] != p@[i as int]);
            return false;
        }
        assert(s@.take(i + 1) =~= s@.take(i as int).push(s@[i as int]));
        assert(p@.take(i + 1) =~= p@.take(i as int).push(p@[i as int]));
        i += 1;
    }
    assert(p@.take(p@.len() as int) =~= p@);
    true
}

pub fn ends_with(s: &Vec<char>, suffix: &str) -> (b: bool)
    ensures
        b == has_suffix(s@, suffix@),
{
    let p = chars_of(suffix);
    if p.len() > s.len() {
        return false;
    }
    let start: usize = s.len() - p.len();
    let ghost tail = s@.skip(start as int);
    let mut i: usize = 0;
    while i < p.len()
        invariant
            i <= p.len() <= s.len(),
            start == s.len() - p.len(),
            tail == s@.skip(start as int),
            p@ == suffix@,
            tail.take(i as int) == p@.take(i as int),
        decreases p.len() - i,
    {
        assert(tail[i as int] == s@[start + i]);
        if s[start + i] != p[i] {
            assert(tail[i as int] != p@[i as int]);
            return false;
        }
        assert(tail.take(i + 1) =~= tail.take(i as int).push(tail[i as int]));
        assert(p@.take(i + 1) =~= p@.take(i as int).push(p@[i as int]));
        i += 1;
    }
    assert(p@.take(p@.len() as int) =~= p@);
    assert(tail.take(tail.len() as int) =~= tail);
    true
}

/// The characters of `s` from position `from` up to, not including, `to`.
pub fn slice(s: &Vec<char>, from: usize, to: usize) -> (out: Vec<char>)
    requires
        from <= to <= s.len(),
    ensures
        out@ == s@.subrange(from as int, to as int),
{
    let mut out: Vec<char> = Vec::new();
    let mut i: usize = from;
    while i < to
        invariant
            from <= i <= to <= s.len(),
            out@ == s@.subrange(from as int, i as int),
        decreases to - i,
    {
        out.push(s[i]);
        assert(s@.subrange(from as int, i + 1) =~= s@.subrange(from as int, i as int).push(
            s@[i as int],
        ));
        i += 1;
    }
    out
}

/// The payload of a rich-content wrapper: what stands between the opening
/// `[CQ:json,data=` and the closing `]` of a message that has both.
pub open spec fn link_payload(text: Seq<char>) -> Option<Seq<char>> {
    if has_prefix(text, "[CQ:json,data="@) && has_suffix(text, "]"@) {
        Some(text.subrange(14, text.len() - 1))
    } else {
        None
    }
}

pub fn payload_of(text: &Vec<char>) -> (payload: Option<Vec<char>>)
    ensures
        match payload {
            Some(p) => link_payload(text@) == Some(p@),
            None => link_payload(text@) is None,
        },
{
    if starts_with(text, "[CQ:json,data=") && ends_with(text, "]") {
        proof {
            reveal_strlit("[CQ:json,data=");
            reveal_strlit("]");
            let prefix = "[CQ:json,data="@;
            if text@.len() == 14 {
                assert(text@.take(14)[13] == prefix[13]);
                assert(text@.skip(13)[0] == "]"@[0]);
            }
        }
        Some(slice(text, 14, text.len() - 1))
    } else {
        None
    }
}

/// The summary line for a document that describes a shared link: its title
/// and its address, found under `meta`, then `detail_1`.
pub open spec fn link_summary(doc: Json) -> Option<Seq<char>> {
    match doc.member("meta"@) {
        Some(Json::Object(meta)) => match Json::Object(meta).member("detail_1"@) {
            Some(Json::Object(detail)) => match (
                Json::Object(detail).member("qqdocurl"@),
                Json::Object(detail).member("desc"@),
            ) {
                (Some(Json::Text(url)), Some(Json::Text(title))) => Some(
                    "标题："@ + title@ + "\n链接："@ + url@,
                ),
                _ => None,
            },
            _ => None,
        },
        _ => None,
    }
}

pub open spec fn text_of(s: Option<String>) -> Option<Seq<char>> {
    match s {
        Some(s) => Some(s@),
        None => None,
    }
}

pub fn summarize(doc: &Json) -> (line: Option<String>)
    ensures
        text_of(line) == link_summary(*doc),
{
    let meta = match doc.get("meta") {
        Some(meta) => meta,
        None => { return None; },
    };
    match meta {
        Json::Object(_) => {},
        _ => { return None; },
    }
    let detail = match meta.get("detail_1") {
        Some(detail) => detail,
        None => { return None; },
    };
    match detail {
        Json::Object(_) => {},
        _ => { return None; },
    }
    let url = match detail.get("qqdocurl") {
        Some(Json::Text(url)) => url,
        _ => { return None; },
    };
    let title = match detail.get("desc") {
        Some(Json::Text(title)) => title,
        _ => { return None; },
    };
    let mut out: Vec<char> = Vec::new();
    push_str(&mut out, "标题：");
    push_str(&mut out, title.as_str());
    push_str(&mut out, "\n链接：");
    push_str(&mut out, url.as_str());
    assert(out@ =~= "标题："@ + title@ + "\n链接："@ + url@);
    Some(string_of(&out))
}

/// A text with its HTML character references replaced by what they stand
/// for.
pub uninterp spec fn html_decoded(text: Seq<char>) -> Seq<char>;

/// `html_escape::decode_html_entities`: the text with each named or numeric
/// character reference decoded. The outcome depends on the text alone.
#[verifier::external_body]
fn decode_entities(text: &str) -> (decoded: String)
    ensures
        decoded@ == html_decoded(text@),
{
    html_escape::decode_html_entities(text).into_owned()
}

/// What the link stage says to a message: the summary of the link that the
/// message wraps, where it wraps one.
pub open spec fn link_line(text: Seq<char>) -> Option<Seq<char>> {
    match link_payload(text) {
        Some(payload) => match json_document(html_decoded(payload)) {
            Some(doc) => link_summary(doc),
            None => None,
        },
        None => None,
    }
}

pub fn link_stage(text: &Vec<char>) -> (line: Option<String>)
    ensures
        text_of(line) == link_line(text@),
{
    match payload_of(text) {
        Some(payload) => {
            let escaped = string_of(&payload);
            let plain = decode_entities(escaped.as_str());
            match parse(plain.as_str()) {
                Some(doc) => summarize(&doc),
                None => None,
            }
        },
        None => None,
    }
}

} // verus!
