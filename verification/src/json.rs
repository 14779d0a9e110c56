//! JSON text as the protocol writes it: quoted strings and unsigned numbers
//! rendered by `serde_json`, and the members of a reply read back from a
//! parsed document.

use vstd::prelude::*;
use vstd::string::StringExecFns;

verus! {

/// The lower-case hexadecimal digit for `n` (`n < 16`).
pub open spec fn hex_digit(n: int) -> char {
    if n < 10 {
        (48 + n) as char
    } else {
        (87 + n) as char
    }
}

/// How one character stands inside a JSON string literal: the quote, the
/// backslash and the control characters below U+0020 are escaped; every other
/// character stands for itself.
pub open spec fn escape_char(c: char) -> Seq<char> {
    if c == '"' {
        seq!['\\', '"']
    } else if c == '\\' {
        seq!['\\', '\\']
    } else if c == '\x08' {
        seq!['\\', 'b']
    } else if c == '\t' {
        seq!['\\', 't']
    } else if c == '\n' {
        seq!['\\', 'n']
    } else if c == '\x0c' {
        seq!['\\', 'f']
    } else if c == '\r' {
        seq!['\\', 'r']
    } else if (c as int) < 0x20 {
        seq!['\\', 'u', '0', '0', hex_digit((c as int) / 16), hex_digit((c as int) % 16)]
    } else {
        seq![c]
    }
}

/// The escaped body of a string literal.
pub open spec fn escape_all(s: Seq<char>) -> Seq<char>
    decreases s.len(),
{
    if s.len() == 0 {
        Seq::empty()
    } else {
        escape_all(s.drop_last()) + escape_char(s.last())
    }
}

/// A JSON string literal for `s`: its escaped body between double quotes.
pub open spec fn json_quoted(s: Seq<char>) -> Seq<char> {
    seq!['"'] + escape_all(s) + seq!['"']
}

/// The decimal digit for `d` (`d < 10`).
pub open spec fn digit_char(d: int) -> char {
    (48 + d) as char
}

/// The decimal rendering of `n`, without sign and without leading zeros.
pub open spec fn decimal(n: nat) -> Seq<char>
    decreases n,
{
    if n < 10 {
        seq![digit_char(n as int)]
    } else {
        decimal(n / 10) + seq![digit_char((n % 10) as int)]
    }
}

/// What a reply document holds in its three members that the client reads:
/// `ok` where it is a JSON boolean, `error` and `text` where they are JSON
/// strings; `None` where the text is not a JSON document.
pub uninterp spec fn json_reply_fields(text: Seq<char>) -> Option<(Option<bool>, Option<Seq<char>>, Option<Seq<char>>)>;

/// The members of a reply that the client acts on.
#[derive(Debug)]
pub struct ReplyFields {
    pub ok: Option<bool>,
    pub error: Option<String>,
    pub text: Option<String>,
}

impl View for ReplyFields {
    type V = (Option<bool>, Option<Seq<char>>, Option<Seq<char>>);

    open spec fn view(&self) -> Self::V {
        (self.ok, self.error.deep_view(), self.text.deep_view())
    }
}

/// Renders `s` as a JSON string literal with `serde_json::to_string`.
///
/// The contract states what `serde_json`'s serializer writes for a `str`
/// (`format_escaped_str` and its `ESCAPE` table): the characters `"` and `\`,
/// and the bytes below 0x20, are escaped, `\b \t \n \f \r` by name and the
/// rest as `\u00XX` in lower-case hex; every other character is copied. The
/// serializer writes into a `Vec<u8>` and cannot fail on a `str`.
#[verifier::external_body]
pub fn json_string(s: &str) -> (res: String)
    ensures
        res@ == json_quoted(s@),
{
    match serde_json::to_string(s) {
        Ok(t) => t,
        Err(_) => String::new(),
    }
}

/// Renders `n` as a JSON number with `serde_json::to_string`.
///
/// The contract states that `serde_json` writes a `u64` as its decimal digits
/// (through `itoa`), with no sign, exponent or leading zeros. Serialising a
/// number into a `Vec<u8>` cannot fail.
#[verifier::external_body]
pub fn json_number(n: u64) -> (res: String)
    ensures
        res@ == decimal(n as nat),
{
    match serde_json::to_string(&n) {
        Ok(t) => t,
        Err(_) => String::new(),
    }
}

/// Parses `text` with `serde_json::from_str` into a `serde_json::Value` and
/// reads its `ok` member with `Value::as_bool` and its `error` and `text`
/// members with `Value::as_str`.
///
/// The contract only names the result: it is `json_reply_fields` of the text,
/// so equal texts give equal fields. Nothing is stated of which texts parse.
#[verifier::external_body]
pub fn read_reply_fields(text: &str) -> (res: Option<ReplyFields>)
    ensures
        match res {
            Some(f) => json_reply_fields(text@) == Some(f@),
            None => json_reply_fields(text@) is None,
        },
{
    let v: serde_json::Value = match serde_json::from_str(text) {
        Ok(v) => v,
        Err(_) => return None,
    };
    Some(ReplyFields {
        ok: v.get("ok").and_then(serde_json::Value::as_bool),
        error: v.get("error").and_then(serde_json::Value::as_str).map(String::from),
        text: v.get("text").and_then(serde_json::Value::as_str).map(String::from),
    })
}

/// `"true"` or `"false"`.
pub open spec fn bool_text(b: bool) -> Seq<char> {
    if b {
        "true"@
    } else {
        "false"@
    }
}

/// An optional member `,"name":value`, absent when the value is.
pub open spec fn opt_member(name: Seq<char>, value: Option<Seq<char>>) -> Seq<char> {
    match value {
        Some(v) => ","@ + json_quoted(name) + ":"@ + v,
        None => Seq::empty(),
    }
}

/// A string as its JSON literal, where there is one.
pub open spec fn opt_quoted(s: Option<Seq<char>>) -> Option<Seq<char>> {
    match s {
        Some(v) => Some(json_quoted(v)),
        None => None,
    }
}

/// A number as its decimal text, where there is one.
pub open spec fn opt_decimal(n: Option<u64>) -> Option<Seq<char>> {
    match n {
        Some(v) => Some(decimal(v as nat)),
        None => None,
    }
}

/// Appends `,"name":value` to `out`.
pub fn push_member(out: &mut String, name: &str, value: &str)
    ensures
        final(out)@ == old(out)@ + (","@ + json_quoted(name@) + ":"@ + value@),
{
    let ghost start = out@;
    out.append(",");
    let key = json_string(name);
    out.append(key.as_str());
    out.append(":");
    out.append(value);
    assert(out@ =~= start + (","@ + json_quoted(name@) + ":"@ + value@));
}

/// Appends the member `name` holding the string `value` where there is one.
pub fn push_string_member(out: &mut String, name: &str, value: &Option<String>)
    ensures
        final(out)@ == old(out)@ + opt_member(name@, opt_quoted(value.deep_view())),
{
    match value {
        Some(t) => {
            let v = json_string(t.as_str());
            push_member(out, name, v.as_str());
        },
        None => {
            assert(out@ =~= out@ + Seq::<char>::empty());
        },
    }
}

/// Appends the member `name` holding the number `value` where there is one.
pub fn push_number_member(out: &mut String, name: &str, value: Option<u64>)
    ensures
        final(out)@ == old(out)@ + opt_member(name@, opt_decimal(value)),
{
    match value {
        Some(n) => {
            let v = json_number(n);
            push_member(out, name, v.as_str());
        },
        None => {
            assert(out@ =~= out@ + Seq::<char>::empty());
        },
    }
}

} // verus!
