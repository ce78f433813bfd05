//! Checking the provider's reply against the expected schema.
//!
//! A successful reply is one JSON object with string fields `id`, `model`,
//! `role` and `stop_reason`, an optional string field `stop_sequence`, a
//! `content` array of objects each carrying a string field `text`, and a
//! `usage` object with integer fields `input_tokens` and `output_tokens`.
//! Unknown fields anywhere are skipped; a field given twice, a missing
//! required field, or a value of the wrong shape makes the whole reply
//! invalid. The schema is stated by the specification functions; the reader
//! [`parse_reply`] returns exactly what they describe.

use vstd::prelude::*;
use crate::json::i32_token;
use crate::json::skip_value;
use crate::json::skip_ws;
use crate::json::string_body;
use crate::json::chars_of;
use crate::json::spec_i32_token;
use crate::json::spec_skip_value;
use crate::json::spec_skip_ws;
use crate::json::spec_string_body;
use crate::json::MAX_NESTING;

verus! {

/// The fields of a well-formed provider reply, at the specification level.
pub ghost struct SpecReply {
    pub id: Seq<char>,
    pub model: Seq<char>,
    pub role: Seq<char>,
    pub texts: Seq<Seq<char>>,
    pub stop_reason: Seq<char>,
    pub stop_sequence: Option<Seq<char>>,
    pub input_tokens: int,
    pub output_tokens: int,
}

/// The fields seen so far while reading the reply object; `None` is "not seen
/// yet".
pub ghost struct SpecAcc {
    pub id: Option<Seq<char>>,
    pub model: Option<Seq<char>>,
    pub role: Option<Seq<char>>,
    pub texts: Option<Seq<Seq<char>>>,
    pub stop_reason: Option<Seq<char>>,
    pub stop_sequence: Option<Option<Seq<char>>>,
    pub usage: Option<(int, int)>,
}

/// No field seen yet.
pub open spec fn spec_acc_empty() -> SpecAcc {
    SpecAcc {
        id: None,
        model: None,
        role: None,
        texts: None,
        stop_reason: None,
        stop_sequence: None,
        usage: None,
    }
}

/// A JSON string starting at `v`: content and end position.
pub open spec fn spec_string_at(s: Seq<char>, v: int) -> Option<(Seq<char>, int)> {
    if 0 <= v < s.len() && s[v] == '"' {
        spec_string_body(s, v + 1, Seq::<char>::empty())
    } else {
        None
    }
}

/// The literal `null` at `v`.
pub open spec fn spec_null_at(s: Seq<char>, v: int) -> bool {
    &&& 0 <= v
    &&& v + 4 <= s.len()
    &&& s[v] == 'n'
    &&& s[v + 1] == 'u'
    &&& s[v + 2] == 'l'
    &&& s[v + 3] == 'l'
}

/// One content item: an object whose required `text` member is a string;
/// other members are skipped. `text` holds the text seen so far, at a key
/// position.
pub open spec fn spec_content_item_items(s: Seq<char>, i: int, text: Option<Seq<char>>) -> Option<
    (Seq<char>, int),
>
    decreases s.len() - i,
{
    if !(0 <= i < s.len() && s[i] == '"') {
        None
    } else {
        match spec_string_body(s, i + 1, Seq::<char>::empty()) {
            None => None,
            Some(kp) => {
                let k = spec_skip_ws(s, kp.1);
                if !(i < k && k < s.len() && s[k] == ':') {
                    None
                } else {
                    let v = spec_skip_ws(s, k + 1);
                    if !(k < v && v <= s.len()) {
                        None
                    } else {
                        let step: Option<(Option<Seq<char>>, int)> = if kp.0 == "text"@ {
                            if text is Some {
                                None
                            } else {
                                match spec_string_at(s, v) {
                                    Some(p) => Some((Some(p.0), p.1)),
                                    None => None,
                                }
                            }
                        } else {
                            match spec_skip_value(s, v, MAX_NESTING as nat) {
                                Some(w) => Some((text, w)),
                                None => None,
                            }
                        };
                        match step {
                            None => None,
                            Some((text2, w)) => {
                                if !(v < w && w <= s.len()) {
                                    None
                                } else {
                                    let x = spec_skip_ws(s, w);
                                    if !(v < x && x <= s.len()) {
                                        None
                                    } else if x < s.len() && s[x] == ',' {
                                        let y = spec_skip_ws(s, x + 1);
                                        if !(x < y && y <= s.len()) {
                                            None
                                        } else {
                                            spec_content_item_items(s, y, text2)
                                        }
                                    } else if x < s.len() && s[x] == '}' {
                                        match text2 {
                                            Some(t) => Some((t, x + 1)),
                                            None => None,
                                        }
                                    } else {
                                        None
                                    }
                                }
                            },
                        }
                    }
                }
            },
        }
    }
}

/// One content item object starting at `i`: its text and end position.
pub open spec fn spec_content_item(s: Seq<char>, i: int) -> Option<(Seq<char>, int)> {
    if !(0 <= i < s.len() && s[i] == '{') {
        None
    } else {
        let j = spec_skip_ws(s, i + 1);
        if !(i < j && j <= s.len()) {
            None
        } else {
            spec_content_item_items(s, j, None)
        }
    }
}

/// A non-empty run of content items `item (, item)* ]` starting at an item
/// position; `ts` holds the texts read so far.
pub open spec fn spec_content_items(s: Seq<char>, i: int, ts: Seq<Seq<char>>) -> Option<
    (Seq<Seq<char>>, int),
>
    decreases s.len() - i,
{
    match spec_content_item(s, i) {
        None => None,
        Some(p) => {
            if !(i < p.1 && p.1 <= s.len()) {
                None
            } else {
                let x = spec_skip_ws(s, p.1);
                if !(i < x && x <= s.len()) {
                    None
                } else if x < s.len() && s[x] == ',' {
                    let y = spec_skip_ws(s, x + 1);
                    if !(x < y && y <= s.len()) {
                        None
                    } else {
                        spec_content_items(s, y, ts.push(p.0))
                    }
                } else if x < s.len() && s[x] == ']' {
                    Some((ts.push(p.0), x + 1))
                } else {
                    None
                }
            }
        },
    }
}

/// The `content` array starting at `v`: the texts of its items, in order, and
/// the end position.
pub open spec fn spec_content_array(s: Seq<char>, v: int) -> Option<(Seq<Seq<char>>, int)> {
    if !(0 <= v < s.len() && s[v] == '[') {
        None
    } else {
        let j = spec_skip_ws(s, v + 1);
        if !(v < j && j <= s.len()) {
            None
        } else if j < s.len() && s[j] == ']' {
            Some((Seq::<Seq<char>>::empty(), j + 1))
        } else {
            spec_content_items(s, j, Seq::<Seq<char>>::empty())
        }
    }
}

/// The members of the `usage` object: required integer members `input_tokens`
/// and `output_tokens`, other members skipped. At a key position.
pub open spec fn spec_usage_items(
    s: Seq<char>,
    i: int,
    in_t: Option<int>,
    out_t: Option<int>,
) -> Option<((int, int), int)>
    decreases s.len() - i,
{
    if !(0 <= i < s.len() && s[i] == '"') {
        None
    } else {
        match spec_string_body(s, i + 1, Seq::<char>::empty()) {
            None => None,
            Some(kp) => {
                let k = spec_skip_ws(s, kp.1);
                if !(i < k && k < s.len() && s[k] == ':') {
                    None
                } else {
                    let v = spec_skip_ws(s, k + 1);
                    if !(k < v && v <= s.len()) {
                        None
                    } else {
                        let step: Option<(Option<int>, Option<int>, int)> = if kp.0
                            == "input_tokens"@ {
                            if in_t is Some {
                                None
                            } else {
                                match spec_i32_token(s, v) {
                                    Some(p) => Some((Some(p.0), out_t, p.1)),
                                    None => None,
                                }
                            }
                        } else if kp.0 == "output_tokens"@ {
                            if out_t is Some {
                                None
                            } else {
                                match spec_i32_token(s, v) {
                                    Some(p) => Some((in_t, Some(p.0), p.1)),
                                    None => None,
                                }
                            }
                        } else {
                            match spec_skip_value(s, v, MAX_NESTING as nat) {
                                Some(w) => Some((in_t, out_t, w)),
                                None => None,
                            }
                        };
                        match step {
                            None => None,
                            Some((in2, out2, w)) => {
                                if !(v < w && w <= s.len()) {
                                    None
                                } else {
                                    let x = spec_skip_ws(s, w);
                                    if !(v < x && x <= s.len()) {
                                        None
                                    } else if x < s.len() && s[x] == ',' {
                                        let y = spec_skip_ws(s, x + 1);
                                        if !(x < y && y <= s.len()) {
                                            None
                                        } else {
                                            spec_usage_items(s, y, in2, out2)
                                        }
                                    } else if x < s.len() && s[x] == '}' {
                                        match (in2, out2) {
                                            (Some(a), Some(b)) => Some(((a, b), x + 1)),
                                            _ => None,
                                        }
                                    } else {
                                        None
                                    }
                                }
                            },
                        }
                    }
                }
            },
        }
    }
}

/// The `usage` object starting at `v`: input and output token counts and the
/// end position.
pub open spec fn spec_usage_object(s: Seq<char>, v: int) -> Option<((int, int), int)> {
    if !(0 <= v < s.len() && s[v] == '{') {
        None
    } else {
        let j = spec_skip_ws(s, v + 1);
        if !(v < j && j <= s.len()) {
            None
        } else {
            spec_usage_items(s, j, None, None)
        }
    }
}

/// One member of the reply object, at value position `v` under key `key`:
/// yields the updated accumulator and the end of the value. A known key must
/// carry a value of its declared shape and may appear only once; an unknown
/// key's value is skipped.
#[verifier::opaque]
pub open spec fn spec_member_value(s: Seq<char>, v: int, key: Seq<char>, acc: SpecAcc) -> Option<
    (SpecAcc, int),
> {
    if key == "id"@ {
        if acc.id is Some {
            None
        } else {
            match spec_string_at(s, v) {
                Some(p) => Some((SpecAcc { id: Some(p.0), ..acc }, p.1)),
                None => None,
            }
        }
    } else if key == "model"@ {
        if acc.model is Some {
            None
        } else {
            match spec_string_at(s, v) {
                Some(p) => Some((SpecAcc { model: Some(p.0), ..acc }, p.1)),
                None => None,
            }
        }
    } else if key == "role"@ {
        if acc.role is Some {
            None
        } else {
            match spec_string_at(s, v) {
                Some(p) => Some((SpecAcc { role: Some(p.0), ..acc }, p.1)),
                None => None,
            }
        }
    } else if key == "stop_reason"@ {
        if acc.stop_reason is Some {
            None
        } else {
            match spec_string_at(s, v) {
                Some(p) => Some((SpecAcc { stop_reason: Some(p.0), ..acc }, p.1)),
                None => None,
            }
        }
    } else if key == "stop_sequence"@ {
        if acc.stop_sequence is Some {
            None
        } else {
            match spec_string_at(s, v) {
                Some(p) => Some((SpecAcc { stop_sequence: Some(Some(p.0)), ..acc }, p.1)),
                None => {
                    if spec_null_at(s, v) {
                        Some((SpecAcc { stop_sequence: Some(None), ..acc }, v + 4))
                    } else {
                        None
                    }
                },
            }
        }
    } else if key == "content"@ {
        if acc.texts is Some {
            None
        } else {
            match spec_content_array(s, v) {
                Some(p) => Some((SpecAcc { texts: Some(p.0), ..acc }, p.1)),
                None => None,
            }
        }
    } else if key == "usage"@ {
        if acc.usage is Some {
            None
        } else {
            match spec_usage_object(s, v) {
                Some(p) => Some((SpecAcc { usage: Some(p.0), ..acc }, p.1)),
                None => None,
            }
        }
    } else {
        match spec_skip_value(s, v, MAX_NESTING as nat) {
            Some(w) => Some((acc, w)),
            None => None,
        }
    }
}

/// One member of the reply object at a key position: key, colon, value. Yields
/// the updated accumulator and the end of the value.
#[verifier::opaque]
pub open spec fn spec_reply_step(s: Seq<char>, i: int, acc: SpecAcc) -> Option<(SpecAcc, int)> {
    if !(0 <= i < s.len() && s[i] == '"') {
        None
    } else {
        match spec_string_body(s, i + 1, Seq::<char>::empty()) {
            None => None,
            Some(kp) => {
                let k = spec_skip_ws(s, kp.1);
                if !(i < k && k < s.len() && s[k] == ':') {
                    None
                } else {
                    let v = spec_skip_ws(s, k + 1);
                    if !(k < v && v <= s.len()) {
                        None
                    } else {
                        match spec_member_value(s, v, kp.0, acc) {
                            None => None,
                            Some((acc2, w)) => {
                                if !(v < w && w <= s.len()) {
                                    None
                                } else {
                                    Some((acc2, w))
                                }
                            },
                        }
                    }
                }
            },
        }
    }
}

/// The members of the reply object, at a key position, with the fields seen so
/// far in `acc`.
pub open spec fn spec_reply_items(s: Seq<char>, i: int, acc: SpecAcc) -> Option<(SpecAcc, int)>
    decreases s.len() - i,
{
    match spec_reply_step(s, i, acc) {
        None => None,
        Some((acc2, w)) => {
            if !(i < w && w <= s.len()) {
                None
            } else {
                let x = spec_skip_ws(s, w);
                if !(w <= x && x <= s.len()) {
                    None
                } else if x < s.len() && s[x] == ',' {
                    let y = spec_skip_ws(s, x + 1);
                    if !(x < y && y <= s.len()) {
                        None
                    } else {
                        spec_reply_items(s, y, acc2)
                    }
                } else if x < s.len() && s[x] == '}' {
                    Some((acc2, x + 1))
                } else {
                    None
                }
            }
        },
    }
}

/// Assembles the reply from the accumulated fields; every required field must
/// have been seen, and a missing `stop_sequence` means none was sent.
pub open spec fn spec_assemble(acc: SpecAcc) -> Option<SpecReply> {
    match (acc.id, acc.model, acc.role, acc.texts, acc.stop_reason, acc.usage) {
        (Some(id), Some(model), Some(role), Some(texts), Some(stop_reason), Some(usage)) => Some(
            SpecReply {
                id,
                model,
                role,
                texts,
                stop_reason,
                stop_sequence: match acc.stop_sequence {
                    Some(x) => x,
                    None => None,
                },
                input_tokens: usage.0,
                output_tokens: usage.1,
            },
        ),
        _ => None,
    }
}

/// The whole reply text: one object carrying all required fields, surrounded
/// only by whitespace. `None` where the text does not match the schema.
pub open spec fn spec_parse_reply(s: Seq<char>) -> Option<SpecReply> {
    let i = spec_skip_ws(s, 0);
    if !(0 <= i < s.len() && s[i] == '{') {
        None
    } else {
        let j = spec_skip_ws(s, i + 1);
        if !(i < j && j <= s.len()) {
            None
        } else if j < s.len() && s[j] == '}' {
            None
        } else {
            match spec_reply_items(s, j, spec_acc_empty()) {
                None => None,
                Some((acc, w)) => {
                    if spec_skip_ws(s, w) == s.len() {
                        spec_assemble(acc)
                    } else {
                        None
                    }
                },
            }
        }
    }
}

/// A well-formed provider reply, as read from the wire.
#[derive(Debug, Clone, PartialEq, Eq)]
pub struct ProviderReply {
    pub id: String,
    pub model: String,
    pub role: String,
    pub texts: Vec<String>,
    pub stop_reason: String,
    pub stop_sequence: Option<String>,
    pub input_tokens: i32,
    pub output_tokens: i32,
}

/// The fields seen so far while reading the reply object.
pub struct Acc {
    pub id: Option<String>,
    pub model: Option<String>,
    pub role: Option<String>,
    pub texts: Option<Vec<String>>,
    pub stop_reason: Option<String>,
    pub stop_sequence: Option<Option<String>>,
    pub usage: Option<(i32, i32)>,
}

/// The view of an optional string.
pub open spec fn opt_view(o: Option<String>) -> Option<Seq<char>> {
    match o {
        Some(t) => Some(t@),
        None => None,
    }
}

/// The view of an optional optional string.
pub open spec fn optopt_view(o: Option<Option<String>>) -> Option<Option<Seq<char>>> {
    match o {
        Some(t) => Some(opt_view(t)),
        None => None,
    }
}

/// The views of a list of strings.
pub open spec fn texts_view(v: Vec<String>) -> Seq<Seq<char>> {
    v@.map_values(|t: String| t@)
}

/// The view of an optional list of strings.
pub open spec fn opt_texts_view(o: Option<Vec<String>>) -> Option<Seq<Seq<char>>> {
    match o {
        Some(v) => Some(texts_view(v)),
        None => None,
    }
}

/// The view of an optional token-count pair.
pub open spec fn opt_usage_view(o: Option<(i32, i32)>) -> Option<(int, int)> {
    match o {
        Some(p) => Some((p.0 as int, p.1 as int)),
        None => None,
    }
}

/// The accumulator's view.
pub open spec fn acc_view(a: Acc) -> SpecAcc {
    SpecAcc {
        id: opt_view(a.id),
        model: opt_view(a.model),
        role: opt_view(a.role),
        texts: opt_texts_view(a.texts),
        stop_reason: opt_view(a.stop_reason),
        stop_sequence: optopt_view(a.stop_sequence),
        usage: opt_usage_view(a.usage),
    }
}

/// An executable reply matches its specification-level description field by
/// field.
pub open spec fn reply_matches(r: ProviderReply, m: SpecReply) -> bool {
    &&& r.id@ == m.id
    &&& r.model@ == m.model
    &&& r.role@ == m.role
    &&& texts_view(r.texts) == m.texts
    &&& r.stop_reason@ == m.stop_reason
    &&& opt_view(r.stop_sequence) == m.stop_sequence
    &&& r.input_tokens == m.input_tokens
    &&& r.output_tokens == m.output_tokens
}

/// Whether a parsed key equals a literal key name.
pub fn key_is(key: &String, lit: &str) -> (b: bool)
    ensures
        b == (key@ == lit@),
{
    let l: String = lit.to_owned();
    *key == l
}

/// Reads a JSON string starting at `v`.
pub fn string_at(s: &Vec<char>, v: usize) -> (r: Option<(String, usize)>)
    requires
        v <= s@.len(),
    ensures
        match r {
            Some(p) => spec_string_at(s@, v as int) == Some((p.0@, p.1 as int)) && v < p.1
                <= s@.len(),
            None => spec_string_at(s@, v as int) is None,
        },
{
    if v < s.len() && s[v] == '"' {
        string_body(s, v + 1)
    } else {
        None
    }
}

/// Whether the literal `null` stands at `v`.
pub fn null_at(s: &Vec<char>, v: usize) -> (b: bool)
    requires
        v <= s@.len(),
    ensures
        b == spec_null_at(s@, v as int),
{
    s.len() - v >= 4 && s[v] == 'n' && s[v + 1] == 'u' && s[v + 2] == 'l' && s[v + 3] == 'l'
}

/// Reads one content item object starting at `start`.
pub fn content_item(s: &Vec<char>, start: usize) -> (r: Option<(String, usize)>)
    requires
        start <= s@.len(),
    ensures
        match r {
            Some(p) => spec_content_item(s@, start as int) == Some((p.0@, p.1 as int)) && start
                < p.1 <= s@.len(),
            None => spec_content_item(s@, start as int) is None,
        },
{
    let n = s.len();
    if !(start < n && s[start] == '{') {
        return None;
    }
    let j = skip_ws(s, start + 1);
    let mut i = j;
    let mut text: Option<String> = None;
    loop
        invariant
            start < i <= n,
            n == s@.len(),
            spec_content_item(s@, start as int) == spec_content_item_items(
                s@,
                i as int,
                opt_view(text),
            ),
        decreases n - i,
    {
        if !(i < n && s[i] == '"') {
            return None;
        }
        match string_body(s, i + 1) {
            None => {
                return None;
            },
            Some(kp) => {
                let k = skip_ws(s, kp.1);
                if !(k < n && s[k] == ':') {
                    return None;
                }
                let v = skip_ws(s, k + 1);
                let w: usize;
                if key_is(&kp.0, "text") {
                    if text.is_some() {
                        return None;
                    }
                    match string_at(s, v) {
                        Some(tp) => {
                            text = Some(tp.0);
                            w = tp.1;
                        },
                        None => {
                            return None;
                        },
                    }
                } else {
                    match skip_value(s, v, MAX_NESTING) {
                        Some(w2) => {
                            w = w2;
                        },
                        None => {
                            return None;
                        },
                    }
                }
                let x = skip_ws(s, w);
                if x < n && s[x] == ',' {
                    let y = skip_ws(s, x + 1);
                    i = y;
                } else if x < n && s[x] == '}' {
                    match text {
                        Some(t) => {
                            return Some((t, x + 1));
                        },
                        None => {
                            return None;
                        },
                    }
                } else {
                    return None;
                }
            },
        }
    }
}

/// Reads the `content` array starting at `start`, collecting the items' texts.
pub fn content_array(s: &Vec<char>, start: usize) -> (r: Option<(Vec<String>, usize)>)
    requires
        start <= s@.len(),
    ensures
        match r {
            Some(p) => spec_content_array(s@, start as int) == Some((texts_view(p.0), p.1 as int))
                && start < p.1 <= s@.len(),
            None => spec_content_array(s@, start as int) is None,
        },
{
    let n = s.len();
    if !(start < n && s[start] == '[') {
        return None;
    }
    let j = skip_ws(s, start + 1);
    if j < n && s[j] == ']' {
        let ts: Vec<String> = Vec::new();
        proof {
            assert(texts_view(ts) =~= Seq::<Seq<char>>::empty());
        }
        return Some((ts, j + 1));
    }
    let mut i = j;
    let mut ts: Vec<String> = Vec::new();
    proof {
        assert(texts_view(ts) =~= Seq::<Seq<char>>::empty());
    }
    loop
        invariant
            start < i <= n,
            n == s@.len(),
            spec_content_array(s@, start as int) == spec_content_items(
                s@,
                i as int,
                texts_view(ts),
            ),
        decreases n - i,
    {
        match content_item(s, i) {
            None => {
                return None;
            },
            Some(p) => {
                let x = skip_ws(s, p.1);
                if x < n && s[x] == ',' {
                    let y = skip_ws(s, x + 1);
                    let ghost ts0 = texts_view(ts);
                    let ghost t0 = p.0@;
                    ts.push(p.0);
                    proof {
                        assert(texts_view(ts) =~= ts0.push(t0));
                    }
                    i = y;
                } else if x < n && s[x] == ']' {
                    let ghost ts0 = texts_view(ts);
                    let ghost t0 = p.0@;
                    ts.push(p.0);
                    proof {
                        assert(texts_view(ts) =~= ts0.push(t0));
                    }
                    return Some((ts, x + 1));
                } else {
                    return None;
                }
            },
        }
    }
}

/// Reads the `usage` object starting at `start`.
pub fn usage_object(s: &Vec<char>, start: usize) -> (r: Option<((i32, i32), usize)>)
    requires
        start <= s@.len(),
    ensures
        match r {
            Some(p) => spec_usage_object(s@, start as int) == Some(
                (((p.0).0 as int, (p.0).1 as int), p.1 as int),
            ) && start < p.1 <= s@.len(),
            None => spec_usage_object(s@, start as int) is None,
        },
{
    let n = s.len();
    if !(start < n && s[start] == '{') {
        return None;
    }
    let j = skip_ws(s, start + 1);
    let mut i = j;
    let mut in_t: Option<i32> = None;
    let mut out_t: Option<i32> = None;
    loop
        invariant
            start < i <= n,
            n == s@.len(),
            spec_usage_object(s@, start as int) == spec_usage_items(
                s@,
                i as int,
                match in_t {
                    Some(a) => Some(a as int),
                    None => None,
                },
                match out_t {
                    Some(b) => Some(b as int),
                    None => None,
                },
            ),
        decreases n - i,
    {
        if !(i < n && s[i] == '"') {
            return None;
        }
        match string_body(s, i + 1) {
            None => {
                return None;
            },
            Some(kp) => {
                let k = skip_ws(s, kp.1);
                if !(k < n && s[k] == ':') {
                    return None;
                }
                let v = skip_ws(s, k + 1);
                let w: usize;
                if key_is(&kp.0, "input_tokens") {
                    if in_t.is_some() {
                        return None;
                    }
                    match i32_token(s, v) {
                        Some(p) => {
                            in_t = Some(p.0);
                            w = p.1;
                        },
                        None => {
                            return None;
                        },
                    }
                } else if key_is(&kp.0, "output_tokens") {
                    if out_t.is_some() {
                        return None;
                    }
                    match i32_token(s, v) {
                        Some(p) => {
                            out_t = Some(p.0);
                            w = p.1;
                        },
                        None => {
                            return None;
                        },
                    }
                } else {
                    match skip_value(s, v, MAX_NESTING) {
                        Some(w2) => {
                            w = w2;
                        },
                        None => {
                            return None;
                        },
                    }
                }
                let x = skip_ws(s, w);
                if x < n && s[x] == ',' {
                    let y = skip_ws(s, x + 1);
                    i = y;
                } else if x < n && s[x] == '}' {
                    match (in_t, out_t) {
                        (Some(a), Some(b)) => {
                            return Some(((a, b), x + 1));
                        },
                        _ => {
                            return None;
                        },
                    }
                } else {
                    return None;
                }
            },
        }
    }
}

/// Reads one member's value at position `v` under `key`, updating the
/// accumulator.
pub fn member_value(s: &Vec<char>, v: usize, key: &String, acc: Acc) -> (r: Option<(Acc, usize)>)
    requires
        v <= s@.len(),
    ensures
        match r {
            Some(p) => spec_member_value(s@, v as int, key@, acc_view(acc)) == Some(
                (acc_view(p.0), p.1 as int),
            ) && v < p.1 <= s@.len(),
            None => spec_member_value(s@, v as int, key@, acc_view(acc)) is None,
        },
{
    proof {
        reveal(spec_member_value);
    }
    if key_is(key, "id") {
        if acc.id.is_some() {
            return None;
        }
        match string_at(s, v) {
            Some(p) => Some((Acc { id: Some(p.0), ..acc }, p.1)),
            None => None,
        }
    } else if key_is(key, "model") {
        if acc.model.is_some() {
            return None;
        }
        match string_at(s, v) {
            Some(p) => Some((Acc { model: Some(p.0), ..acc }, p.1)),
            None => None,
        }
    } else if key_is(key, "role") {
        if acc.role.is_some() {
            return None;
        }
        match string_at(s, v) {
            Some(p) => Some((Acc { role: Some(p.0), ..acc }, p.1)),
            None => None,
        }
    } else if key_is(key, "stop_reason") {
        if acc.stop_reason.is_some() {
            return None;
        }
        match string_at(s, v) {
            Some(p) => Some((Acc { stop_reason: Some(p.0), ..acc }, p.1)),
            None => None,
        }
    } else if key_is(key, "stop_sequence") {
        if acc.stop_sequence.is_some() {
            return None;
        }
        match string_at(s, v) {
            Some(p) => Some((Acc { stop_sequence: Some(Some(p.0)), ..acc }, p.1)),
            None => {
                if null_at(s, v) {
                    let n = s.len();
                    proof {
                        assert(v + 4 <= n);
                    }
                    Some((Acc { stop_sequence: Some(None), ..acc }, v + 4))
                } else {
                    None
                }
            },
        }
    } else if key_is(key, "content") {
        if acc.texts.is_some() {
            return None;
        }
        match content_array(s, v) {
            Some(p) => Some((Acc { texts: Some(p.0), ..acc }, p.1)),
            None => None,
        }
    } else if key_is(key, "usage") {
        if acc.usage.is_some() {
            return None;
        }
        match usage_object(s, v) {
            Some(p) => Some((Acc { usage: Some(p.0), ..acc }, p.1)),
            None => None,
        }
    } else {
        match skip_value(s, v, MAX_NESTING) {
            Some(w) => Some((acc, w)),
            None => None,
        }
    }
}

/// Reads one reply member at a key position, updating the accumulator.
pub fn reply_step(s: &Vec<char>, i: usize, acc: Acc) -> (r: Option<(Acc, usize)>)
    requires
        i <= s@.len(),
    ensures
        match r {
            Some(p) => spec_reply_step(s@, i as int, acc_view(acc)) == Some(
                (acc_view(p.0), p.1 as int),
            ) && i < p.1 <= s@.len(),
            None => spec_reply_step(s@, i as int, acc_view(acc)) is None,
        },
{
    proof {
        reveal(spec_reply_step);
    }
    let n = s.len();
    if !(i < n && s[i] == '"') {
        return None;
    }
    match string_body(s, i + 1) {
        None => None,
        Some(kp) => {
            let k = skip_ws(s, kp.1);
            if !(k < n && s[k] == ':') {
                return None;
            }
            let v = skip_ws(s, k + 1);
            member_value(s, v, &kp.0, acc)
        },
    }
}

/// Assembles the reply from the accumulated fields.
pub fn assemble_reply(acc: Acc) -> (r: Option<ProviderReply>)
    ensures
        match r {
            Some(rep) => match spec_assemble(acc_view(acc)) {
                Some(m) => reply_matches(rep, m),
                None => false,
            },
            None => spec_assemble(acc_view(acc)) is None,
        },
{
    let Acc { id, model, role, texts, stop_reason, stop_sequence, usage } = acc;
    match (id, model, role, texts, stop_reason, usage) {
        (Some(id), Some(model), Some(role), Some(texts), Some(stop_reason), Some(us)) => {
            Some(
                ProviderReply {
                    id,
                    model,
                    role,
                    texts,
                    stop_reason,
                    stop_sequence: match stop_sequence {
                        Some(q) => q,
                        None => None,
                    },
                    input_tokens: us.0,
                    output_tokens: us.1,
                },
            )
        },
        _ => None,
    }
}

/// Reads a whole reply text against the expected schema.
#[verifier::rlimit(100)]
pub fn parse_reply(body: &str) -> (r: Option<ProviderReply>)
    ensures
        match r {
            Some(rep) => match spec_parse_reply(body@) {
                Some(m) => reply_matches(rep, m),
                None => false,
            },
            None => spec_parse_reply(body@) is None,
        },
{
    let s = chars_of(body);
    let n = s.len();
    let i0 = skip_ws(&s, 0);
    if !(i0 < n && s[i0] == '{') {
        return None;
    }
    let j = skip_ws(&s, i0 + 1);
    if j < n && s[j] == '}' {
        return None;
    }
    let mut i = j;
    let mut acc = Acc {
        id: None,
        model: None,
        role: None,
        texts: None,
        stop_reason: None,
        stop_sequence: None,
        usage: None,
    };
    proof {
        assert(acc_view(acc) == spec_acc_empty());
    }
    loop
        invariant
            i0 < i <= n,
            n == s@.len(),
            s@ == body@,
            i0 as int == spec_skip_ws(body@, 0),
            i0 < n && s@[i0 as int] == '{',
            j as int == spec_skip_ws(body@, i0 + 1),
            i0 < j <= n,
            !(j < n && s@[j as int] == '}'),
            spec_reply_items(body@, j as int, spec_acc_empty()) == spec_reply_items(
                body@,
                i as int,
                acc_view(acc),
            ),
        decreases n - i,
    {
        let ghost av0 = acc_view(acc);
        match reply_step(&s, i, acc) {
            None => {
                return None;
            },
            Some(p) => {
                let w = p.1;
                acc = p.0;
                let ghost av1 = acc_view(acc);
                let x = skip_ws(&s, w);
                if x < n && s[x] == ',' {
                    let y = skip_ws(&s, x + 1);
                    i = y;
                } else if x < n && s[x] == '}' {
                    let e = skip_ws(&s, x + 1);
                    if e != n {
                        return None;
                    }
                    proof {
                        assert(spec_reply_items(body@, i as int, av0) == Some((av1, x + 1)));
                        assert(spec_reply_items(body@, j as int, spec_acc_empty()) == Some(
                            (av1, x + 1),
                        ));
                        assert(spec_skip_ws(body@, x + 1) == n);
                        assert(spec_parse_reply(body@) == spec_assemble(av1));
                    }
                    return assemble_reply(acc);
                } else {
                    return None;
                }
            },
        }
    }
}

} // verus!
