//! The compact encoding of a JSON value: the bytes that stand for it in a request, and
//! from which its digest is taken.

use crate::json::{lemma_array_view, lemma_object_view, member_views, views_of, Json, JsonView};
use vstd::prelude::*;

verus! {

/// The JSON literal of a string, in bytes: between quotes, with what must be escaped
/// escaped.
pub uninterp spec fn string_literal(s: Seq<char>) -> Option<Seq<u8>>;

/// The bytes that a number is written with, given the text of its literal; `None` for a
/// text that is no number.
pub uninterp spec fn number_literal(text: Seq<char>) -> Option<Seq<u8>>;

/// Writes a string as a JSON literal.
///
/// Trusted: `serde_json::to_vec` serialises a string slice as a JSON string. The
/// contract only gives the outcome its name: the same string always yields the same
/// bytes.
#[verifier::external_body]
pub(crate) fn encode_string(s: &str) -> (r: Option<Vec<u8>>)
    ensures
        match r {
            Some(b) => string_literal(s@) == Some(b@),
            None => string_literal(s@) is None,
        },
{
    serde_json::to_vec(s).ok()
}

/// Writes the number that `text` is the literal of.
///
/// Trusted: `serde_json::Number::from_str` reads the number, and `serde_json::to_vec`
/// serialises it. The contract only gives the outcome its name: the same text always
/// yields the same bytes, or none where it is no number.
#[verifier::external_body]
pub(crate) fn encode_number(text: &str) -> (r: Option<Vec<u8>>)
    ensures
        match r {
            Some(b) => number_literal(text@) == Some(b@),
            None => number_literal(text@) is None,
        },
{
    let n: serde_json::Number = text.parse().ok()?;
    serde_json::to_vec(&n).ok()
}

/// The first `n` of `parts`, with a comma between each two; `None` where one of them is
/// not there.
pub open spec fn joined(parts: Seq<Option<Seq<u8>>>, n: int) -> Option<Seq<u8>>
    decreases n,
{
    if n <= 0 {
        Some(Seq::empty())
    } else {
        match (joined(parts, n - 1), parts[n - 1]) {
            (Some(a), Some(b)) => Some(
                if n == 1 {
                    b
                } else {
                    a + seq![44u8] + b
                },
            ),
            _ => None,
        }
    }
}

/// A member of an object: the literal of its name, a colon, and its value.
pub open spec fn member_encoding(key: Seq<char>, value: Option<Seq<u8>>) -> Option<Seq<u8>> {
    match (string_literal(key), value) {
        (Some(k), Some(v)) => Some(k + seq![58u8] + v),
        _ => None,
    }
}

/// `body` between two bytes.
pub open spec fn enclosed(open: u8, body: Option<Seq<u8>>, close: u8) -> Option<Seq<u8>> {
    match body {
        Some(b) => Some(seq![open] + b + seq![close]),
        None => None,
    }
}

/// The compact encoding of a value: no space anywhere, the members of an object and the
/// items of an array in their order. `None` where a number in it is no number.
pub open spec fn encoding(v: JsonView) -> Option<Seq<u8>>
    decreases v,
{
    match v {
        JsonView::Null => Some(seq![110u8, 117u8, 108u8, 108u8]),
        JsonView::Bool(b) => Some(
            if b {
                seq![116u8, 114u8, 117u8, 101u8]
            } else {
                seq![102u8, 97u8, 108u8, 115u8, 101u8]
            },
        ),
        JsonView::Number(t) => number_literal(t),
        JsonView::Str(s) => string_literal(s),
        JsonView::Array(items) => enclosed(
            91u8,
            joined(item_encodings(items), items.len() as int),
            93u8,
        ),
        JsonView::Object(members) => enclosed(
            123u8,
            joined(member_encodings(members), members.len() as int),
            125u8,
        ),
    }
}

/// The encodings of a run of members.
pub open spec fn member_encodings(members: Seq<(Seq<char>, JsonView)>) -> Seq<Option<Seq<u8>>>
    decreases members,
{
    Seq::new(
        members.len(),
        |i: int|
            if 0 <= i < members.len() {
                member_encoding(members[i].0, encoding(members[i].1))
            } else {
                None
            },
    )
}

/// The encodings of a run of values.
pub open spec fn item_encodings(items: Seq<JsonView>) -> Seq<Option<Seq<u8>>>
    decreases items,
{
    Seq::new(
        items.len(),
        |i: int|
            if 0 <= i < items.len() {
                encoding(items[i])
            } else {
                None
            },
    )
}

/// Once a part is missing, so is everything joined from it on.
pub proof fn lemma_joined_none(parts: Seq<Option<Seq<u8>>>, k: int, n: int)
    requires
        0 <= k < n,
        parts[k] is None || joined(parts, k) is None,
    ensures
        joined(parts, n) is None,
    decreases n - k,
{
    if k + 1 < n {
        lemma_joined_none(parts, k + 1, n);
    }
}

/// Appends `part` to `out`.
fn push_all(out: &mut Vec<u8>, part: Vec<u8>)
    ensures
        final(out)@ == old(out)@ + part@,
{
    let mut part = part;
    out.append(&mut part);
}

/// Adds one more part to what is joined so far: behind a comma, unless it is the first.
fn join_part(body: &mut Vec<u8>, part: Vec<u8>, Ghost(parts): Ghost<Seq<Option<Seq<u8>>>>, i: usize)
    requires
        joined(parts, i as int) == Some(old(body)@),
        0 <= i < parts.len(),
        parts[i as int] == Some(part@),
    ensures
        joined(parts, i + 1) == Some(final(body)@),
{
    if i > 0 {
        body.push(44u8);
    }
    push_all(body, part);
    proof {
        if i > 0 {
            assert(body@ =~= old(body)@ + seq![44u8] + part@);
        } else {
            assert(body@ =~= part@);
        }
    }
}

/// `body` between two bytes.
fn enclose(open: u8, body: Vec<u8>, close: u8) -> (r: Vec<u8>)
    ensures
        Some(r@) == enclosed(open, Some(body@), close),
{
    let mut out: Vec<u8> = Vec::new();
    out.push(open);
    push_all(&mut out, body);
    out.push(close);
    assert(out@ =~= seq![open] + body@ + seq![close]);
    out
}

/// The encoding of a member, given those of its name and of its value.
fn encode_member(key: Vec<u8>, value: Vec<u8>) -> (r: Vec<u8>)
    ensures
        r@ == key@ + seq![58u8] + value@,
{
    let mut out = key;
    out.push(58u8);
    push_all(&mut out, value);
    out
}

impl Json {
    /// The compact encoding of the value, where every number in it is a number.
    pub fn encode(&self) -> (r: Option<Vec<u8>>)
        ensures
            match r {
                Some(b) => encoding(self@) == Some(b@),
                None => encoding(self@) is None,
            },
        decreases self,
    {
        match self {
            Json::Null => {
                let mut out: Vec<u8> = Vec::new();
                out.push(110u8);
                out.push(117u8);
                out.push(108u8);
                out.push(108u8);
                assert(out@ =~= seq![110u8, 117u8, 108u8, 108u8]);
                Some(out)
            },
            Json::Bool(b) => {
                let mut out: Vec<u8> = Vec::new();
                if *b {
                    out.push(116u8);
                    out.push(114u8);
                    out.push(117u8);
                    out.push(101u8);
                    assert(out@ =~= seq![116u8, 114u8, 117u8, 101u8]);
                } else {
                    out.push(102u8);
                    out.push(97u8);
                    out.push(108u8);
                    out.push(115u8);
                    out.push(101u8);
                    assert(out@ =~= seq![102u8, 97u8, 108u8, 115u8, 101u8]);
                }
                Some(out)
            },
            Json::Number(t) => encode_number(t.as_str()),
            Json::Str(s) => encode_string(s.as_str()),
            Json::Array(items) => {
                proof {
                    lemma_array_view(*items);
                }
                let ghost parts = item_encodings(views_of(items@));
                let mut body: Vec<u8> = Vec::new();
                let mut i: usize = 0;
                while i < items.len()
                    invariant
                        i <= items.len(),
                        *self == Json::Array(*items),
                        self@ == JsonView::Array(views_of(items@)),
                        parts == item_encodings(views_of(items@)),
                        joined(parts, i as int) == Some(body@),
                    decreases items.len() - i,
                {
                    assert(parts[i as int] == encoding(items@[i as int]@));
                    match items[i].encode() {
                        Some(part) => {
                            join_part(&mut body, part, Ghost(parts), i);
                        },
                        None => {
                            proof {
                                lemma_joined_none(parts, i as int, items@.len() as int);
                            }
                            return None;
                        },
                    }
                    i += 1;
                }
                Some(enclose(91u8, body, 93u8))
            },
            Json::Object(members) => {
                proof {
                    lemma_object_view(*members);
                }
                let ghost parts = member_encodings(member_views(members@));
                let mut body: Vec<u8> = Vec::new();
                let mut i: usize = 0;
                while i < members.len()
                    invariant
                        i <= members.len(),
                        *self == Json::Object(*members),
                        self@ == JsonView::Object(member_views(members@)),
                        parts == member_encodings(member_views(members@)),
                        joined(parts, i as int) == Some(body@),
                    decreases members.len() - i,
                {
                    assert(parts[i as int] == member_encoding(
                        members@[i as int].0@,
                        encoding(members@[i as int].1@),
                    ));
                    let key = encode_string(members[i].0.as_str());
                    let value = members[i].1.encode();
                    match (key, value) {
                        (Some(k), Some(v)) => {
                            join_part(&mut body, encode_member(k, v), Ghost(parts), i);
                        },
                        _ => {
                            proof {
                                lemma_joined_none(parts, i as int, members@.len() as int);
                            }
                            return None;
                        },
                    }
                    i += 1;
                }
                Some(enclose(123u8, body, 125u8))
            },
        }
    }
}

} // verus!
