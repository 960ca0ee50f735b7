//! Templates: the double-brace placeholders in them, and how they are rewritten for the
//! remote service.

use crate::text::{concat3, contains_char, starts_with, str_eq};
use crate::textmap::{put, TextMap};
use vstd::prelude::*;
use vstd::string::StringSliceAdditionalSpecFns;
use vstd::utf8::{decode_utf8, encode_utf8, is_char_boundary};

verus! {

broadcast use {vstd::utf8::encode_utf8_decode_utf8, vstd::utf8::encode_utf8_valid_utf8};

/// A placeholder that holds one bare identifier.
pub const ITEM_VAR_PATTERN: &'static str = r"\{\{\s*([a-zA-Z_][a-zA-Z0-9_]*)\s*\}\}";

/// A placeholder that holds an identifier, or two joined by a dot.
pub const PATH_PATTERN: &'static str = r"\{\{\s*([a-zA-Z_][a-zA-Z0-9_]*(?:\.[a-zA-Z0-9_]+)?)\s*\}\}";

/// One match of a pattern: where it starts and ends in the text, in bytes, and where the
/// first group of the pattern stands, if it took part.
#[derive(Debug, Clone, Copy)]
pub struct Capture {
    pub start: usize,
    pub end: usize,
    pub group: Option<(usize, usize)>,
}

/// The matches of `pattern` in `haystack`, one after the other and not overlapping, as the
/// regular-expression engine finds them; `None` where the engine does not accept the
/// pattern.
pub uninterp spec fn regex_captures(pattern: Seq<char>, haystack: Seq<char>) -> Option<
    Seq<Capture>,
>;

/// Searches `haystack` for `pattern`.
///
/// Trusted: `regex::Regex::new` compiles the pattern, and `Regex::captures_iter` yields the
/// successive non-overlapping matches; of each, `Captures::get` gives the whole match
/// (group 0) and the first group, and `Match::start` and `Match::end` their byte offsets.
/// The contract only gives the outcome its name: the same pattern and text always yield
/// the same matches.
#[verifier::external_body]
pub(crate) fn find_captures(pattern: &str, haystack: &str) -> (r: Option<Vec<Capture>>)
    ensures
        match r {
            Some(v) => regex_captures(pattern@, haystack@) == Some(v@),
            None => regex_captures(pattern@, haystack@) is None,
        },
{
    let re = regex::Regex::new(pattern).ok()?;
    re.captures_iter(haystack).map(
        |c|
            c.get(0).map(
                |m|
                    Capture {
                        start: m.start(),
                        end: m.end(),
                        group: c.get(1).map(|g| (g.start(), g.end())),
                    },
            ),
    ).collect()
}

/// Whether the bytes from `from` up to `to` of the encoding of `s` can be cut out: both
/// ends lie in the text, in order, and on boundaries of characters.
pub open spec fn sliceable(s: Seq<char>, from: int, to: int) -> bool {
    let bytes = encode_utf8(s);
    &&& 0 <= from <= to <= byte_len(s)
    &&& to <= bytes.len()
    &&& is_char_boundary(bytes, to)
    &&& is_char_boundary(bytes.subrange(0, to), from)
}

/// The characters that the bytes from `from` up to `to` of the encoding of `s` hold.
pub open spec fn slice_text(s: Seq<char>, from: int, to: int) -> Seq<char> {
    decode_utf8(encode_utf8(s).subrange(from, to))
}

/// The length of the encoding of `s`, in bytes, as a string reports it.
pub open spec fn byte_len(s: Seq<char>) -> int {
    (encode_utf8(s).len() as usize) as int
}

/// The part of `s` between two byte offsets, where it can be cut out.
pub fn byte_slice(s: &str, from: usize, to: usize) -> (r: Option<&str>)
    ensures
        r is Some <==> sliceable(s@, from as int, to as int),
        r matches Some(piece) ==> piece@ == slice_text(s@, from as int, to as int),
{
    if from > to || to > s.len() || !s.is_char_boundary(to) {
        return None;
    }
    if to > 0 {
        assert(to as int <= encode_utf8(s@).len());
    }
    let (head, _) = s.split_at(to);
    if !head.is_char_boundary(from) {
        return None;
    }
    let (_, piece) = head.split_at(from);
    proof {
        let bytes = encode_utf8(s@);
        assert(head.spec_bytes() == bytes.subrange(0, to as int));
        assert(piece.spec_bytes() =~= bytes.subrange(from as int, to as int));
        assert(decode_utf8(encode_utf8(piece@)) == piece@);
    }
    Some(piece)
}

/// Whether `name` is one of the three roots that are never fields of an item.
pub open spec fn is_reserved(name: Seq<char>) -> bool {
    name == "sample"@ || name == "item"@ || name == "response"@
}

/// What stands in place of a placeholder that holds `path`:
/// `response.text` becomes the output text of the sample; a path under `sample.` or
/// `item.` stays; a bare name that is no reserved root becomes a field of the item; any
/// other path stays.
pub open spec fn rewritten(path: Seq<char>) -> Seq<char> {
    if path == "response.text"@ {
        "{{sample.output_text}}"@
    } else if "sample."@.is_prefix_of(path) || "item."@.is_prefix_of(path) {
        "{{"@ + path + "}}"@
    } else if !path.contains('.') && !is_reserved(path) {
        "{{item."@ + path + "}}"@
    } else {
        "{{"@ + path + "}}"@
    }
}

/// The placeholder that takes the place of one that holds `path`.
pub fn rewrite_placeholder(path: &str) -> (r: String)
    ensures
        r@ == rewritten(path@),
{
    if str_eq(path, "response.text") {
        "{{sample.output_text}}".to_owned()
    } else if starts_with(path, "sample.") || starts_with(path, "item.") {
        concat3("{{", path, "}}")
    } else if !contains_char(path, '.') && !str_eq(path, "sample") && !str_eq(path, "item")
        && !str_eq(path, "response") {
        concat3("{{item.", path, "}}")
    } else {
        concat3("{{", path, "}}")
    }
}

/// `s` from byte `pos` on, with each match from the `i`-th on replaced by what its group
/// is rewritten to; `None` where a match does not lie in the text as a match must.
pub open spec fn splice(s: Seq<char>, caps: Seq<Capture>, i: int, pos: int) -> Option<Seq<char>>
    decreases caps.len() - i,
{
    if i < 0 || i >= caps.len() {
        if sliceable(s, pos, byte_len(s)) {
            Some(slice_text(s, pos, byte_len(s)))
        } else {
            None
        }
    } else {
        match caps[i].group {
            Some((gs, ge)) => {
                if sliceable(s, pos, caps[i].start as int) && sliceable(s, gs as int, ge as int) {
                    match splice(s, caps, i + 1, caps[i].end as int) {
                        Some(rest) => Some(
                            slice_text(s, pos, caps[i].start as int) + rewritten(
                                slice_text(s, gs as int, ge as int),
                            ) + rest,
                        ),
                        None => None,
                    }
                } else {
                    None
                }
            },
            None => None,
        }
    }
}

/// `s` with the given matches replaced; `s` itself where they cannot be replaced.
pub open spec fn replaced(s: Seq<char>, caps: Option<Seq<Capture>>) -> Seq<char> {
    match caps {
        Some(c) => match splice(s, c, 0, 0) {
            Some(t) => t,
            None => s,
        },
        None => s,
    }
}

/// `s` with every placeholder of the path pattern rewritten.
pub open spec fn translated(s: Seq<char>) -> Seq<char> {
    replaced(s, regex_captures(PATH_PATTERN@, s))
}

/// Replaces the given matches in `s`, each by what its group is rewritten to.
pub fn replace_captures(s: &str, caps: &Vec<Capture>) -> (r: String)
    ensures
        r@ == replaced(s@, Some(caps@)),
{
    let mut out = String::new();
    let mut pos: usize = 0;
    let mut i: usize = 0;
    while i < caps.len()
        invariant
            i <= caps.len(),
            splice(s@, caps@, 0, 0) == match splice(s@, caps@, i as int, pos as int) {
                Some(rest) => Some(out@ + rest),
                None => None,
            },
        decreases caps.len() - i,
    {
        let c = caps[i];
        let (gs, ge) = match c.group {
            Some(g) => g,
            None => {
                return s.to_owned();
            },
        };
        let before = match byte_slice(s, pos, c.start) {
            Some(p) => p,
            None => {
                return s.to_owned();
            },
        };
        let path = match byte_slice(s, gs, ge) {
            Some(p) => p,
            None => {
                return s.to_owned();
            },
        };
        let ghost old_out = out@;
        let new_text = rewrite_placeholder(path);
        out.append(before);
        out.append(new_text.as_str());
        proof {
            let next = splice(s@, caps@, i + 1, c.end as int);
            if next is Some {
                assert(old_out + (before@ + new_text@ + next->0) =~= (old_out + before@
                    + new_text@) + next->0);
            }
        }
        pos = c.end;
        i += 1;
    }
    match byte_slice(s, pos, s.len()) {
        Some(tail) => {
            out.append(tail);
            out
        },
        None => s.to_owned(),
    }
}

/// Rewrites the placeholders of a template for the remote service: `{{response.text}}`
/// becomes `{{sample.output_text}}`, a bare `{{name}}` becomes `{{item.name}}`, and what
/// is rooted at `sample.` or `item.`, or has any other shape, stays as it is.
pub fn translate_template_placeholders(s: &str) -> (r: String)
    ensures
        r@ == translated(s@),
{
    match find_captures(PATH_PATTERN, s) {
        Some(caps) => replace_captures(s, &caps),
        None => s.to_owned(),
    }
}

/// `acc` with the names that the matches from the `i`-th on hold, but for the reserved
/// roots.
pub open spec fn vars_from(s: Seq<char>, caps: Seq<Capture>, i: int, acc: Seq<(Seq<char>, ())>) -> Seq<
    (Seq<char>, ()),
>
    decreases caps.len() - i,
{
    if i < 0 || i >= caps.len() {
        acc
    } else {
        vars_from(s, caps, i + 1, with_var(s, caps[i], acc))
    }
}

/// `acc` with the name that one match holds, where it holds one that is no reserved root.
pub open spec fn with_var(s: Seq<char>, c: Capture, acc: Seq<(Seq<char>, ())>) -> Seq<
    (Seq<char>, ()),
> {
    match c.group {
        Some((gs, ge)) => {
            if sliceable(s, gs as int, ge as int) && !is_reserved(slice_text(s, gs as int, ge as int)) {
                put(acc, slice_text(s, gs as int, ge as int), ())
            } else {
                acc
            }
        },
        None => acc,
    }
}

/// `acc` with the names that the given matches hold.
pub open spec fn with_vars(s: Seq<char>, caps: Option<Seq<Capture>>, acc: Seq<(Seq<char>, ())>) -> Seq<
    (Seq<char>, ()),
> {
    match caps {
        Some(c) => vars_from(s, c, 0, acc),
        None => acc,
    }
}

/// `acc` with the bare names that the placeholders of `template` refer to.
pub open spec fn item_vars(template: Seq<char>, acc: Seq<(Seq<char>, ())>) -> Seq<(Seq<char>, ())> {
    with_vars(template, regex_captures(ITEM_VAR_PATTERN@, template), acc)
}

/// Adds to `out` the names that the given matches in `template` hold.
pub fn collect_captured_vars(template: &str, caps: &Vec<Capture>, out: &mut TextMap<()>)
    ensures
        final(out)@ == with_vars(template@, Some(caps@), old(out)@),
{
    let mut i: usize = 0;
    while i < caps.len()
        invariant
            i <= caps.len(),
            vars_from(template@, caps@, 0, old(out)@) == vars_from(template@, caps@, i as int, out@),
        decreases caps.len() - i,
    {
        let c = caps[i];
        match c.group {
            Some((gs, ge)) => {
                match byte_slice(template, gs, ge) {
                    Some(name) => {
                        if !str_eq(name, "sample") && !str_eq(name, "item") && !str_eq(
                            name,
                            "response",
                        ) {
                            out.insert(name.to_owned(), ());
                        }
                    },
                    None => {},
                }
            },
            None => {},
        }
        i += 1;
    }
}

/// Adds to `out` every bare name that a placeholder of `template` refers to, but for the
/// reserved roots `sample`, `item` and `response`.
pub fn collect_item_vars(template: &str, out: &mut TextMap<()>)
    ensures
        final(out)@ == item_vars(template@, old(out)@),
{
    match find_captures(ITEM_VAR_PATTERN, template) {
        Some(caps) => collect_captured_vars(template, &caps, out),
        None => {},
    }
}

} // verus!
