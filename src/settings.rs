use vstd::prelude::*;
use vstd::string::StringExecFns;

use crate::options::VerifyOptions;

verus! {

/// The lower-case hexadecimal digit for `d` (below 16).
pub open spec fn json_hex_digit(d: u32) -> char {
    if d < 10 {
        (('0' as u32) + d) as char
    } else {
        (('a' as u32) + d - 10) as char
    }
}

/// How one character stands inside a JSON string literal: quote and
/// backslash are escaped, the common control characters take their short
/// escapes, the other control characters `\u00XX`, and the rest stands as is.
pub open spec fn json_escaped_char(c: char) -> Seq<char> {
    if c == '"' {
        seq!['\\', '"']
    } else if c == '\\' {
        seq!['\\', '\\']
    } else if c == '\n' {
        seq!['\\', 'n']
    } else if c == '\r' {
        seq!['\\', 'r']
    } else if c == '\t' {
        seq!['\\', 't']
    } else if (c as u32) < 0x20 {
        seq!['\\', 'u', '0', '0', json_hex_digit((c as u32) / 16), json_hex_digit((c as u32) % 16)]
    } else {
        seq![c]
    }
}

/// The body of a JSON string literal holding `s`: each character escaped in turn.
pub open spec fn json_escaped(s: Seq<char>) -> Seq<char>
    decreases s.len(),
{
    if s.len() == 0 {
        Seq::empty()
    } else {
        json_escaped(s.drop_last()) + json_escaped_char(s.last())
    }
}

/// The JSON string literal that holds `s`.
pub open spec fn json_string(s: Seq<char>) -> Seq<char> {
    seq!['"'] + json_escaped(s) + seq!['"']
}

/// A JSON value for an optional text: its string literal, or `null`.
pub open spec fn json_optional(s: Option<String>) -> Seq<char> {
    match s {
        Some(t) => json_string(t@),
        None => "null"@,
    }
}

pub open spec fn json_bool(b: bool) -> Seq<char> {
    if b {
        "true"@
    } else {
        "false"@
    }
}

/// The settings document that configures the verifier with `o`: validation
/// after reading, the trust anchors, the private (user) anchors and the
/// trust policy, each absent one as `null`.
pub open spec fn settings_doc(o: VerifyOptions) -> Seq<char> {
    "{\"verify\":{\"verify_after_reading\":"@
        + json_bool(o.verify)
        + "},\"trust\":{\"trust_anchors\":"@
        + json_optional(o.anchors)
        + ",\"user_anchors\":"@
        + json_optional(o.private_anchors)
        + ",\"trust_config\":"@
        + json_optional(o.config)
        + "}}"@
}

/// Relies on std's `String::push`: the character is appended at the end.
#[verifier::external_body]
fn push_char(s: &mut String, c: char)
    ensures
        final(s)@ == old(s)@.push(c),
{
    s.push(c)
}

fn hex_digit(d: u8) -> (r: char)
    requires
        d < 16,
    ensures
        r == json_hex_digit(d as u32),
{
    if d < 10 {
        (48u8 + d) as char
    } else {
        (97u8 + (d - 10)) as char
    }
}

fn push_escaped_char(out: &mut String, c: char)
    ensures
        final(out)@ == old(out)@ + json_escaped_char(c),
{
    let ghost start = out@;
    if c == '"' {
        push_char(out, '\\');
        push_char(out, '"');
    } else if c == '\\' {
        push_char(out, '\\');
        push_char(out, '\\');
    } else if c == '\n' {
        push_char(out, '\\');
        push_char(out, 'n');
    } else if c == '\r' {
        push_char(out, '\\');
        push_char(out, 'r');
    } else if c == '\t' {
        push_char(out, '\\');
        push_char(out, 't');
    } else if (c as u32) < 0x20 {
        let v = c as u32 as u8;
        push_char(out, '\\');
        push_char(out, 'u');
        push_char(out, '0');
        push_char(out, '0');
        push_char(out, hex_digit(v / 16));
        push_char(out, hex_digit(v % 16));
    } else {
        push_char(out, c);
    }
    assert(out@ =~= start + json_escaped_char(c));
}

/// Appends the JSON string literal that holds `s`.
pub fn push_json_string(out: &mut String, s: &str)
    ensures
        final(out)@ == old(out)@ + json_string(s@),
{
    broadcast use vstd::string::axiom_spec_iter;
    let ghost start = out@;
    push_char(out, '"');
    for c in it: s.chars()
        invariant
            it.seq() == s@,
            out@ == start + seq!['"'] + json_escaped(s@.take(it.index() as int)),
    {
        let ghost i = it.index() as int;
        assert(s@.take(i + 1).drop_last() =~= s@.take(i));
        push_escaped_char(out, c);
        assert(out@ =~= start + seq!['"'] + json_escaped(s@.take(i + 1)));
    }
    assert(s@.take(s@.len() as int) =~= s@);
    push_char(out, '"');
    assert(out@ =~= start + json_string(s@));
}

fn push_json_optional(out: &mut String, s: &Option<String>)
    ensures
        final(out)@ == old(out)@ + json_optional(*s),
{
    match s {
        Some(t) => push_json_string(out, t.as_str()),
        None => out.append("null"),
    }
}

/// Renders `o` as the verifier's settings document.
pub fn settings_document(o: &VerifyOptions) -> (r: String)
    ensures
        r@ == settings_doc(*o),
{
    let mut out = String::new();
    out.append("{\"verify\":{\"verify_after_reading\":");
    if o.verify {
        out.append("true");
    } else {
        out.append("false");
    }
    out.append("},\"trust\":{\"trust_anchors\":");
    push_json_optional(&mut out, &o.anchors);
    out.append(",\"user_anchors\":");
    push_json_optional(&mut out, &o.private_anchors);
    out.append(",\"trust_config\":");
    push_json_optional(&mut out, &o.config);
    out.append("}}");
    assert(out@ =~= settings_doc(*o));
    out
}

} // verus!
