//! Building the JSON request payload.
//!
//! The payload is `{"model":…,"messages":[…],"max_tokens":…,"tools":…,
//! "system":…}` with every string escaped as JSON asks: quote, backslash and
//! control characters are escaped, everything else is copied through. The
//! exact text is stated by [`spec_request_body`]; the builder returns it.

use vstd::prelude::*;
use vstd::string::StrSliceExecFns;
use vstd::string::StringExecFns;
use crate::ext::push_char;
use crate::types::Message;

verus! {

/// The hexadecimal digit character for `d`, lower case.
pub open spec fn spec_hex_char(d: int) -> char {
    if d == 1 {
        '1'
    } else if d == 2 {
        '2'
    } else if d == 3 {
        '3'
    } else if d == 4 {
        '4'
    } else if d == 5 {
        '5'
    } else if d == 6 {
        '6'
    } else if d == 7 {
        '7'
    } else if d == 8 {
        '8'
    } else if d == 9 {
        '9'
    } else if d == 10 {
        'a'
    } else if d == 11 {
        'b'
    } else if d == 12 {
        'c'
    } else if d == 13 {
        'd'
    } else if d == 14 {
        'e'
    } else if d == 15 {
        'f'
    } else {
        '0'
    }
}

/// What a character becomes inside a JSON string: itself, a short escape, or a
/// `\u00xx` escape for the remaining control characters.
pub open spec fn spec_escape_char(c: char) -> Seq<char> {
    if c == '"' {
        seq!['\\', '"']
    } else if c == '\\' {
        seq!['\\', '\\']
    } else if c == '\u{8}' {
        seq!['\\', 'b']
    } else if c == '\u{c}' {
        seq!['\\', 'f']
    } else if c == '\n' {
        seq!['\\', 'n']
    } else if c == '\r' {
        seq!['\\', 'r']
    } else if c == '\t' {
        seq!['\\', 't']
    } else if (c as u32) < 0x20 {
        seq![
            '\\',
            'u',
            '0',
            '0',
            spec_hex_char((c as u32 / 16) as int),
            spec_hex_char((c as u32 % 16) as int),
        ]
    } else {
        seq![c]
    }
}

/// The escaped form of `s[i..]`, appended to `acc`.
pub open spec fn spec_escape_from(s: Seq<char>, i: int, acc: Seq<char>) -> Seq<char>
    decreases s.len() - i,
{
    if !(0 <= i < s.len()) {
        acc
    } else {
        spec_escape_from(s, i + 1, acc + spec_escape_char(s[i]))
    }
}

/// The escaped form of a whole string.
pub open spec fn spec_escape(s: Seq<char>) -> Seq<char> {
    spec_escape_from(s, 0, Seq::<char>::empty())
}

/// Appending to the accumulator and appending to the result are the same.
pub proof fn lemma_escape_from_acc(s: Seq<char>, i: int, acc: Seq<char>)
    requires
        0 <= i <= s.len(),
    ensures
        spec_escape_from(s, i, acc) == acc + spec_escape_from(s, i, Seq::<char>::empty()),
    decreases s.len() - i,
{
    if i < s.len() {
        lemma_escape_from_acc(s, i + 1, acc + spec_escape_char(s[i]));
        lemma_escape_from_acc(s, i + 1, Seq::<char>::empty() + spec_escape_char(s[i]));
        assert((acc + spec_escape_char(s[i])) + spec_escape_from(s, i + 1, Seq::<char>::empty())
            =~= acc + ((Seq::<char>::empty() + spec_escape_char(s[i])) + spec_escape_from(
            s,
            i + 1,
            Seq::<char>::empty(),
        )));
    } else {
        assert(acc + Seq::<char>::empty() =~= acc);
    }
}

/// The decimal digits of `n`, most significant first.
pub open spec fn spec_u32_dec(n: nat) -> Seq<char>
    decreases n,
{
    if n < 10 {
        seq![spec_hex_char(n as int)]
    } else {
        spec_u32_dec(n / 10).push(spec_hex_char((n % 10) as int))
    }
}

/// The views of the messages: role and content of each, in order.
pub open spec fn msg_views(ms: Seq<Message>) -> Seq<(Seq<char>, Seq<char>)> {
    ms.map_values(|m: Message| (m.role@, m.content@))
}

/// One message as a JSON object.
pub open spec fn spec_message_json(role: Seq<char>, content: Seq<char>) -> Seq<char> {
    "{\"role\":\""@ + spec_escape(role) + "\",\"content\":\""@ + spec_escape(content) + "\"}"@
}

/// The comma-separated message objects of `ms[i..]`, appended to `acc`.
pub open spec fn spec_messages_json_from(
    ms: Seq<(Seq<char>, Seq<char>)>,
    i: int,
    acc: Seq<char>,
) -> Seq<char>
    decreases ms.len() - i,
{
    if !(0 <= i < ms.len()) {
        acc
    } else {
        let sep: Seq<char> = if i == 0 {
            Seq::<char>::empty()
        } else {
            ","@
        };
        spec_messages_json_from(ms, i + 1, acc + sep + spec_message_json(ms[i].0, ms[i].1))
    }
}

/// Appending to the accumulator and appending to the result are the same.
pub proof fn lemma_messages_from_acc(ms: Seq<(Seq<char>, Seq<char>)>, i: int, acc: Seq<char>)
    requires
        0 <= i <= ms.len(),
    ensures
        spec_messages_json_from(ms, i, acc) == acc + spec_messages_json_from(
            ms,
            i,
            Seq::<char>::empty(),
        ),
    decreases ms.len() - i,
{
    if i < ms.len() {
        let sep: Seq<char> = if i == 0 {
            Seq::<char>::empty()
        } else {
            ","@
        };
        let mj = spec_message_json(ms[i].0, ms[i].1);
        let rest = spec_messages_json_from(ms, i + 1, Seq::<char>::empty());
        lemma_messages_from_acc(ms, i + 1, acc + sep + mj);
        lemma_messages_from_acc(ms, i + 1, Seq::<char>::empty() + sep + mj);
        assert((acc + sep + mj) + rest =~= acc + ((Seq::<char>::empty() + sep + mj) + rest));
    } else {
        assert(acc + Seq::<char>::empty() =~= acc);
    }
}

/// The whole request payload.
pub open spec fn spec_request_body(
    model: Seq<char>,
    ms: Seq<(Seq<char>, Seq<char>)>,
    max_tokens: u32,
    tools: Seq<char>,
    system: Seq<char>,
) -> Seq<char> {
    "{\"model\":\""@ + spec_escape(model) + "\",\"messages\":["@ + spec_messages_json_from(
        ms,
        0,
        Seq::<char>::empty(),
    ) + "],\"max_tokens\":"@ + spec_u32_dec(max_tokens as nat) + ",\"tools\":"@ + tools
        + ",\"system\":\""@ + spec_escape(system) + "\"}"@
}

/// The hexadecimal digit character for `d`, lower case.
pub fn hex_char(d: u32) -> (c: char)
    requires
        d < 16,
    ensures
        c == spec_hex_char(d as int),
{
    if d == 1 {
        '1'
    } else if d == 2 {
        '2'
    } else if d == 3 {
        '3'
    } else if d == 4 {
        '4'
    } else if d == 5 {
        '5'
    } else if d == 6 {
        '6'
    } else if d == 7 {
        '7'
    } else if d == 8 {
        '8'
    } else if d == 9 {
        '9'
    } else if d == 10 {
        'a'
    } else if d == 11 {
        'b'
    } else if d == 12 {
        'c'
    } else if d == 13 {
        'd'
    } else if d == 14 {
        'e'
    } else if d == 15 {
        'f'
    } else {
        '0'
    }
}

/// Appends the escaped form of `s` to `out`.
pub fn append_escaped(out: &mut String, s: &str)
    ensures
        final(out)@ == old(out)@ + spec_escape(s@),
{
    let n = s.unicode_len();
    let mut i: usize = 0;
    while i < n
        invariant
            i <= n,
            n == s@.len(),
            spec_escape_from(s@, 0, old(out)@) == spec_escape_from(s@, i as int, out@),
        decreases n - i,
    {
        let c = s.get_char(i);
        let ghost pre = out@;
        if c == '"' {
            push_char(out, '\\');
            push_char(out, '"');
        } else if c == '\\' {
            push_char(out, '\\');
            push_char(out, '\\');
        } else if c == '\u{8}' {
            push_char(out, '\\');
            push_char(out, 'b');
        } else if c == '\u{c}' {
            push_char(out, '\\');
            push_char(out, 'f');
        } else if c == '\n' {
            push_char(out, '\\');
            push_char(out, 'n');
        } else if c == '\r' {
            push_char(out, '\\');
            push_char(out, 'r');
        } else if c == '\t' {
            push_char(out, '\\');
            push_char(out, 't');
        } else if (c as u32) < 0x20 {
            push_char(out, '\\');
            push_char(out, 'u');
            push_char(out, '0');
            push_char(out, '0');
            push_char(out, hex_char(c as u32 / 16));
            push_char(out, hex_char(c as u32 % 16));
        } else {
            push_char(out, c);
        }
        proof {
            assert(out@ =~= pre + spec_escape_char(s@[i as int]));
        }
        i = i + 1;
    }
    proof {
        lemma_escape_from_acc(s@, 0, old(out)@);
    }
}

/// The decimal digits of `n`.
pub fn u32_dec(n: u32) -> (r: String)
    ensures
        r@ == spec_u32_dec(n as nat),
    decreases n,
{
    if n < 10 {
        let mut s = String::new();
        push_char(&mut s, hex_char(n));
        proof {
            assert(s@ =~= seq![spec_hex_char(n as int)]);
        }
        s
    } else {
        let mut s = u32_dec(n / 10);
        push_char(&mut s, hex_char(n % 10));
        s
    }
}

/// Builds the whole request payload.
pub fn build_request_body(
    model: &str,
    messages: &Vec<Message>,
    max_tokens: u32,
    tools: &str,
    system: &str,
) -> (r: String)
    ensures
        r@ == spec_request_body(model@, msg_views(messages@), max_tokens, tools@, system@),
{
    let ghost mv = msg_views(messages@);
    let mut out = String::new();
    out.append("{\"model\":\"");
    proof {
        assert(out@ =~= "{\"model\":\""@);
    }
    append_escaped(&mut out, model);
    out.append("\",\"messages\":[");
    let ghost base = out@;
    let mut k: usize = 0;
    while k < messages.len()
        invariant
            k <= messages@.len(),
            mv == msg_views(messages@),
            mv.len() == messages@.len(),
            base == ("{\"model\":\""@ + spec_escape(model@)) + "\",\"messages\":["@,
            spec_messages_json_from(mv, 0, base) == spec_messages_json_from(mv, k as int, out@),
        decreases messages@.len() - k,
    {
        let ghost pre = out@;
        if k > 0 {
            out.append(",");
        }
        out.append("{\"role\":\"");
        let m = &messages[k];
        append_escaped(&mut out, m.role.as_str());
        out.append("\",\"content\":\"");
        append_escaped(&mut out, m.content.as_str());
        out.append("\"}");
        proof {
            let sep: Seq<char> = if k == 0 {
                Seq::<char>::empty()
            } else {
                ","@
            };
            assert(mv[k as int].0 == messages@[k as int].role@);
            assert(mv[k as int].1 == messages@[k as int].content@);
            assert(out@ =~= pre + sep + spec_message_json(mv[k as int].0, mv[k as int].1));
        }
        k = k + 1;
    }
    out.append("],\"max_tokens\":");
    let d = u32_dec(max_tokens);
    out.append(d.as_str());
    out.append(",\"tools\":");
    out.append(tools);
    out.append(",\"system\":\"");
    append_escaped(&mut out, system);
    out.append("\"}");
    proof {
        lemma_messages_from_acc(mv, 0, base);
        assert(out@ =~= spec_request_body(model@, mv, max_tokens, tools@, system@));
    }
    out
}

} // verus!
