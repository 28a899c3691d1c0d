//! JSON text for the request bodies: string literals come from `serde_json`,
//! objects are framed here.
use vstd::prelude::*;

verus! {

/// The lower-case hexadecimal digit for `d < 16`.
pub open spec fn lower_hex_digit(d: nat) -> char {
    if d < 10 {
        (d + 0x30) as char
    } else {
        (d - 10 + 0x61) as char
    }
}

/// How a JSON string literal writes one character.
pub open spec fn json_escape_char(c: char) -> Seq<char> {
    if c == '"' {
        seq!['\\', '"']
    } else if c == '\\' {
        seq!['\\', '\\']
    } else if c == '\u{8}' {
        seq!['\\', 'b']
    } else if c == '\t' {
        seq!['\\', 't']
    } else if c == '\n' {
        seq!['\\', 'n']
    } else if c == '\u{c}' {
        seq!['\\', 'f']
    } else if c == '\r' {
        seq!['\\', 'r']
    } else if (c as u32) < 0x20 {
        seq![
            '\\',
            'u',
            '0',
            '0',
            lower_hex_digit((c as u32 / 16) as nat),
            lower_hex_digit((c as u32 % 16) as nat),
        ]
    } else {
        seq![c]
    }
}

/// The characters of `s`, each escaped as a JSON string literal writes it.
pub open spec fn json_escape(s: Seq<char>) -> Seq<char>
    decreases s.len(),
{
    if s.len() == 0 {
        seq![]
    } else {
        json_escape_char(s[0]) + json_escape(s.skip(1))
    }
}

/// The JSON string literal for `s`, quotes included.
pub open spec fn json_string_literal(s: Seq<char>) -> Seq<char> {
    seq!['"'] + json_escape(s) + seq!['"']
}

/// One `"key":"value"` member of a JSON object.
pub open spec fn json_member(key: Seq<char>, value: Seq<char>) -> Seq<char> {
    json_string_literal(key) + seq![':'] + json_string_literal(value)
}

/// The members of a JSON object, separated by commas, in the given order.
pub open spec fn json_members(fields: Seq<(Seq<char>, Seq<char>)>) -> Seq<char>
    decreases fields.len(),
{
    if fields.len() == 0 {
        seq![]
    } else if fields.len() == 1 {
        json_member(fields[0].0, fields[0].1)
    } else {
        json_members(fields.drop_last()) + seq![','] + json_member(
            fields.last().0,
            fields.last().1,
        )
    }
}

/// The compact JSON object whose members are `fields`, in that order.
pub open spec fn json_object(fields: Seq<(Seq<char>, Seq<char>)>) -> Seq<char> {
    seq!['{'] + json_members(fields) + seq!['}']
}

/// The pairs of strings of `fields`, taken by their characters.
pub open spec fn fields_view(fields: Seq<(&str, &str)>) -> Seq<(Seq<char>, Seq<char>)> {
    fields.map_values(|f: (&str, &str)| (f.0@, f.1@))
}

/// Calls `serde_json::to_string` on a string slice. Its serializer writes a
/// `str` as a quoted literal, escaping `"` and `\`, the named controls
/// `\b \t \n \f \r`, and every other byte below 0x20 as `\u00xx` with
/// lower-case hex digits; all other characters are copied. Writing into the
/// in-memory buffer cannot fail, so the call always returns `Ok`.
#[verifier::external_body]
fn json_string(s: &str) -> (res: String)
    ensures
        res@ == json_string_literal(s@),
{
    serde_json::to_string(s).unwrap()
}

/// The compact JSON object text for string-valued `fields`, members in the
/// given order.
pub fn json_object_text(fields: &Vec<(&str, &str)>) -> (res: String)
    ensures
        res@ == json_object(fields_view(fields@)),
{
    proof {
        reveal_strlit("{");
        reveal_strlit("}");
    }
    let ghost view = fields_view(fields@);
    let mut out = String::from_str("{");
    let n: usize = fields.len();
    let mut i: usize = 0;
    assert(view.take(0) =~= Seq::<(Seq<char>, Seq<char>)>::empty());
    while i < n
        invariant
            n == fields@.len(),
            view == fields_view(fields@),
            i <= n,
            out@ == seq!['{'] + json_members(view.take(i as int)),
        decreases n - i,
    {
        let ghost before = out@;
        if i > 0 {
            out.append(",");
        }
        let key = json_string(fields[i].0);
        out.append(key.as_str());
        out.append(":");
        let value = json_string(fields[i].1);
        out.append(value.as_str());
        proof {
            let t = view.take(i + 1);
            assert(t.drop_last() =~= view.take(i as int));
            assert(t.last() == view[i as int]);
            assert(view[i as int] == (fields@[i as int].0@, fields@[i as int].1@));
            reveal_strlit(",");
            reveal_strlit(":");
            let member = json_member(view[i as int].0, view[i as int].1);
            if i == 0 {
                assert(out@ =~= before + member);
                assert(json_members(t) == member);
            } else {
                assert(out@ =~= before + seq![','] + member);
                assert(json_members(t) == json_members(view.take(i as int)) + seq![','] + member);
            }
            assert(out@ =~= seq!['{'] + json_members(t));
        }
        i = i + 1;
    }
    out.append("}");
    assert(view.take(n as int) =~= view);
    assert(out@ =~= json_object(view));
    out
}

} // verus!
