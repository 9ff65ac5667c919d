//! Entries of the audit trail of administrative actions: what is recorded
//! for a deletion and for an edit. Writing and querying the trail are left
//! to the caller.
use vstd::prelude::*;
use crate::hashing::{hex_char, hex_digit};
use crate::text::{chars_of, extend_str, string_of};

verus! {

/// One action to record.
#[derive(Debug, Clone)]
pub struct AuditAction {
    /// What was done (`delete`, `edit`, ...).
    pub action: String,
    /// Kind of thing it was done to.
    pub target_type: String,
    pub target_id: String,
    /// Details, as JSON.
    pub details: Option<String>,
    pub bytes_affected: u64,
}

/// A character as it stands inside a JSON string written by `serde_json`:
/// quote and backslash escaped with a backslash, the control characters
/// with a short escape where JSON has one and as `\u00XX` (lowercase hex)
/// otherwise; every other character as it is.
pub open spec fn json_escaped_char(c: char) -> Seq<char> {
    let n = c as int;
    if c == '"' {
        seq!['\\', '"']
    } else if c == '\\' {
        seq!['\\', '\\']
    } else if n == 8 {
        seq!['\\', 'b']
    } else if n == 9 {
        seq!['\\', 't']
    } else if n == 10 {
        seq!['\\', 'n']
    } else if n == 12 {
        seq!['\\', 'f']
    } else if n == 13 {
        seq!['\\', 'r']
    } else if n < 32 {
        seq!['\\', 'u', '0', '0', hex_digit(n / 16), hex_digit(n % 16)]
    } else {
        seq![c]
    }
}

/// The characters of a text, each escaped for a JSON string.
pub open spec fn json_escaped(s: Seq<char>) -> Seq<char>
    decreases s.len(),
{
    if s.len() == 0 {
        Seq::empty()
    } else {
        json_escaped(s.drop_last()) + json_escaped_char(s.last())
    }
}

/// A text written as a JSON string value: quoted, its characters escaped.
pub open spec fn json_string_literal(s: Seq<char>) -> Seq<char> {
    seq!['"'] + json_escaped(s) + seq!['"']
}

fn push_json_escaped(out: &mut Vec<char>, c: char)
    ensures
        final(out)@ == old(out)@ + json_escaped_char(c),
{
    let n: u32 = c as u32;
    if c == '"' {
        out.push('\\');
        out.push('"');
    } else if c == '\\' {
        out.push('\\');
        out.push('\\');
    } else if n == 8 {
        out.push('\\');
        out.push('b');
    } else if n == 9 {
        out.push('\\');
        out.push('t');
    } else if n == 10 {
        out.push('\\');
        out.push('n');
    } else if n == 12 {
        out.push('\\');
        out.push('f');
    } else if n == 13 {
        out.push('\\');
        out.push('r');
    } else if n < 32 {
        out.push('\\');
        out.push('u');
        out.push('0');
        out.push('0');
        out.push(hex_char((n / 16) as u8));
        out.push(hex_char((n % 16) as u8));
    } else {
        out.push(c);
    }
    proof {
        assert(final(out)@ =~= old(out)@ + json_escaped_char(c));
    }
}

/// Writes a text as a JSON string, as `serde_json` writes a string value.
pub fn json_string(s: &str) -> (r: String)
    ensures
        r@ == json_string_literal(s@),
{
    let cs = chars_of(s);
    let mut out: Vec<char> = vec!['"'];
    let mut i: usize = 0;
    while i < cs.len()
        invariant
            i <= cs@.len(),
            out@ == seq!['"'] + json_escaped(cs@.take(i as int)),
        decreases cs@.len() - i,
    {
        proof {
            assert(cs@.take(i + 1).drop_last() =~= cs@.take(i as int));
        }
        push_json_escaped(&mut out, cs[i]);
        i += 1;
    }
    out.push('"');
    proof {
        assert(cs@.take(cs@.len() as int) =~= cs@);
    }
    string_of(&out)
}

/// The JSON text of an edit's details: an object with `field`, `new_value`
/// and `old_value` (null when there was none), keys in sorted order, written
/// compactly as `serde_json` writes an object.
pub open spec fn edit_details_json(field: Seq<char>, old_value: Option<Seq<char>>, new_value: Seq<char>) -> Seq<char> {
    "{\"field\":"@ + json_string_literal(field) + ",\"new_value\":"@ + json_string_literal(new_value)
        + ",\"old_value\":"@ + match old_value {
        Some(v) => json_string_literal(v),
        None => "null"@,
    } + "}"@
}

/// Writes an edit's details.
fn edit_details_text(field: &str, old_value: Option<&str>, new_value: &str) -> (r: String)
    ensures
        r@ == edit_details_json(
            field@,
            match old_value {
                Some(v) => Some(v@),
                None => None,
            },
            new_value@,
        ),
{
    let mut v: Vec<char> = Vec::new();
    extend_str(&mut v, "{\"field\":");
    let f = json_string(field);
    extend_str(&mut v, f.as_str());
    extend_str(&mut v, ",\"new_value\":");
    let n = json_string(new_value);
    extend_str(&mut v, n.as_str());
    extend_str(&mut v, ",\"old_value\":");
    match old_value {
        Some(o) => {
            let j = json_string(o);
            extend_str(&mut v, j.as_str());
        },
        None => extend_str(&mut v, "null"),
    }
    extend_str(&mut v, "}");
    string_of(&v)
}

/// The record of a deletion that freed `bytes_freed` bytes.
pub fn deletion_action(
    target_type: &str,
    target_id: &str,
    bytes_freed: u64,
    details: Option<String>,
) -> (r: AuditAction)
    ensures
        r.action@ == "delete"@,
        r.target_type@ == target_type@,
        r.target_id@ == target_id@,
        r.details == details,
        r.bytes_affected == bytes_freed,
{
    AuditAction {
        action: String::from_str("delete"),
        target_type: String::from_str(target_type),
        target_id: String::from_str(target_id),
        details,
        bytes_affected: bytes_freed,
    }
}

/// The record of an edit of `field` from `old_value` to `new_value`.
pub fn edit_action(
    target_type: &str,
    target_id: &str,
    field: &str,
    old_value: Option<&str>,
    new_value: &str,
) -> (r: AuditAction)
    ensures
        r.action@ == "edit"@,
        r.target_type@ == target_type@,
        r.target_id@ == target_id@,
        r.details matches Some(d) && d@ == edit_details_json(
            field@,
            match old_value {
                Some(v) => Some(v@),
                None => None,
            },
            new_value@,
        ),
        r.bytes_affected == 0,
{
    AuditAction {
        action: String::from_str("edit"),
        target_type: String::from_str(target_type),
        target_id: String::from_str(target_id),
        details: Some(edit_details_text(field, old_value, new_value)),
        bytes_affected: 0,
    }
}

} // verus!
