//! Writing JSON values as compact JSON text, and the size of that text.

use vstd::prelude::*;
use crate::json::{JsonData, JsonValue, entries_data, lemma_entries_data, lemma_values_data, values_data};
use crate::text::push_char;

verus! {

/// A lower-case hexadecimal digit.
pub open spec fn hex_digit(d: nat) -> char {
    if d < 10 { ((d + ('0' as u32)) as u32) as char } else { ((d - 10 + ('a' as u32)) as u32) as char }
}

/// A character as it is written inside a JSON string: quotes, backslashes
/// and control characters escaped, the common ones by their short forms.
pub open spec fn escaped(c: char) -> Seq<char> {
    if c == '"' {
        seq!['\\', '"']
    } else if c == '\\' {
        seq!['\\', '\\']
    } else if c == '\n' {
        seq!['\\', 'n']
    } else if c == '\r' {
        seq!['\\', 'r']
    } else if c == '\t' {
        seq!['\\', 't']
    } else if c == '\u{8}' {
        seq!['\\', 'b']
    } else if c == '\u{c}' {
        seq!['\\', 'f']
    } else if (c as u32) < 0x20 {
        seq!['\\', 'u', '0', '0', hex_digit((c as u32 / 16) as nat), hex_digit((c as u32 % 16) as nat)]
    } else {
        seq![c]
    }
}

/// The escaped characters of `s`, in order.
pub open spec fn escaped_all(s: Seq<char>) -> Seq<char>
    decreases s.len(),
{
    if s.len() == 0 {
        Seq::empty()
    } else {
        escaped_all(s.drop_last()) + escaped(s.last())
    }
}

/// A string as a JSON string literal.
pub open spec fn string_text(s: Seq<char>) -> Seq<char> {
    seq!['"'] + escaped_all(s) + seq!['"']
}

/// The compact JSON text of a value.
pub open spec fn json_text(d: JsonData) -> Seq<char>
    decreases d,
{
    match d {
        JsonData::Null => "null"@,
        JsonData::Bool(b) => if b { "true"@ } else { "false"@ },
        JsonData::Number(t, _) => t,
        JsonData::Str(s) => string_text(s),
        JsonData::Array(items) => seq!['['] + items_text(items) + seq![']'],
        JsonData::Object(entries) => seq!['{'] + entries_text(entries) + seq!['}'],
    }
}

/// The texts of array elements, separated by commas.
pub open spec fn items_text(items: Seq<JsonData>) -> Seq<char>
    decreases items,
{
    if items.len() == 0 {
        Seq::empty()
    } else if items.len() == 1 {
        json_text(items[0])
    } else {
        items_text(items.drop_last()) + seq![','] + json_text(items.last())
    }
}

/// The texts of object entries, `"key":value`, separated by commas.
pub open spec fn entries_text(entries: Seq<(Seq<char>, JsonData)>) -> Seq<char>
    decreases entries,
{
    if entries.len() == 0 {
        Seq::empty()
    } else if entries.len() == 1 {
        string_text(entries[0].0) + seq![':'] + json_text(entries[0].1)
    } else {
        entries_text(entries.drop_last()) + seq![','] + string_text(entries.last().0) + seq![':']
            + json_text(entries.last().1)
    }
}

fn hex_digit_exec(d: u32) -> (c: char)
    requires
        d < 16,
    ensures
        c == hex_digit(d as nat),
{
    if d == 0 { '0' } else if d == 1 { '1' } else if d == 2 { '2' } else if d == 3 { '3' }
    else if d == 4 { '4' } else if d == 5 { '5' } else if d == 6 { '6' } else if d == 7 { '7' }
    else if d == 8 { '8' } else if d == 9 { '9' } else if d == 10 { 'a' } else if d == 11 { 'b' }
    else if d == 12 { 'c' } else if d == 13 { 'd' } else if d == 14 { 'e' } else { 'f' }
}

fn push_escaped(out: &mut String, c: char)
    ensures
        final(out)@ == old(out)@ + escaped(c),
{
    if c == '"' {
        push_char(out, '\\');
        push_char(out, '"');
    } else if c == '\\' {
        push_char(out, '\\');
        push_char(out, '\\');
    } else if c == '\n' {
        push_char(out, '\\');
        push_char(out, 'n');
    } else if c == '\r' {
        push_char(out, '\\');
        push_char(out, 'r');
    } else if c == '\t' {
        push_char(out, '\\');
        push_char(out, 't');
    } else if c == '\u{8}' {
        push_char(out, '\\');
        push_char(out, 'b');
    } else if c == '\u{c}' {
        push_char(out, '\\');
        push_char(out, 'f');
    } else if (c as u32) < 0x20 {
        push_char(out, '\\');
        push_char(out, 'u');
        push_char(out, '0');
        push_char(out, '0');
        push_char(out, hex_digit_exec(c as u32 / 16));
        push_char(out, hex_digit_exec(c as u32 % 16));
    } else {
        push_char(out, c);
    }
    assert(out@ =~= old(out)@ + escaped(c));
}

/// Appends a string literal to `out`.
pub fn push_string_text(out: &mut String, s: &str)
    ensures
        final(out)@ == old(out)@ + string_text(s@),
{
    push_char(out, '"');
    let n = s.unicode_len();
    let mut i: usize = 0;
    while i < n
        invariant
            n == s@.len(),
            i <= n,
            out@ == old(out)@ + seq!['"'] + escaped_all(s@.subrange(0, i as int)),
        decreases n - i,
    {
        let c = s.get_char(i);
        assert(s@.subrange(0, i + 1).drop_last() =~= s@.subrange(0, i as int));
        push_escaped(out, c);
        i += 1;
    }
    assert(s@.subrange(0, n as int) =~= s@);
    push_char(out, '"');
    assert(out@ =~= old(out)@ + string_text(s@));
}

/// Appends the compact JSON text of `v` to `out`.
pub fn push_json_text(out: &mut String, v: &JsonValue)
    ensures
        final(out)@ == old(out)@ + json_text(v.data()),
    decreases v,
{
    match v {
        JsonValue::Null => out.append("null"),
        JsonValue::Bool(b) => if *b { out.append("true") } else { out.append("false") },
        JsonValue::Number(n) => out.append(n.text.as_str()),
        JsonValue::String(s) => push_string_text(out, s.as_str()),
        JsonValue::Array(items) => {
            proof { lemma_values_data(items@); }
            push_char(out, '[');
            let ghost start = out@;
            let mut i: usize = 0;
            while i < items.len()
                invariant
                    *v == JsonValue::Array(*items),
                    i <= items.len(),
                    out@ == start + items_text(values_data(items@.subrange(0, i as int))),
                decreases items.len() - i,
            {
                proof {
                    assert(decreases_to!(*v => (*v)->Array_0));
                    assert(decreases_to!((*v)->Array_0 => items@));
                    assert(decreases_to!(items@ => items@[i as int]));
                }
                let ghost before = values_data(items@.subrange(0, i as int));
                assert(items@.subrange(0, i + 1).drop_last() =~= items@.subrange(0, i as int));
                let ghost after = values_data(items@.subrange(0, i + 1));
                assert(after.drop_last() =~= before);
                if i > 0 {
                    push_char(out, ',');
                }
                push_json_text(out, &items[i]);
                assert(out@ =~= start + items_text(after));
                i += 1;
            }
            assert(items@.subrange(0, items.len() as int) =~= items@);
            push_char(out, ']');
            assert(out@ =~= old(out)@ + json_text(v.data()));
        },
        JsonValue::Object(entries) => {
            proof { lemma_entries_data(entries@); }
            push_char(out, '{');
            let ghost start = out@;
            let mut i: usize = 0;
            while i < entries.len()
                invariant
                    *v == JsonValue::Object(*entries),
                    i <= entries.len(),
                    out@ == start + entries_text(entries_data(entries@.subrange(0, i as int))),
                decreases entries.len() - i,
            {
                proof {
                    assert(decreases_to!(*v => (*v)->Object_0));
                    assert(decreases_to!((*v)->Object_0 => entries@));
                    assert(decreases_to!(entries@ => entries@[i as int]));
                    assert(decreases_to!(entries@[i as int] => entries@[i as int].1));
                }
                let ghost before = entries_data(entries@.subrange(0, i as int));
                assert(entries@.subrange(0, i + 1).drop_last() =~= entries@.subrange(0, i as int));
                let ghost after = entries_data(entries@.subrange(0, i + 1));
                assert(after.drop_last() =~= before);
                if i > 0 {
                    push_char(out, ',');
                }
                push_string_text(out, entries[i].0.as_str());
                push_char(out, ':');
                push_json_text(out, &entries[i].1);
                assert(out@ =~= start + entries_text(after));
                i += 1;
            }
            assert(entries@.subrange(0, entries.len() as int) =~= entries@);
            push_char(out, '}');
            assert(out@ =~= old(out)@ + json_text(v.data()));
        },
    }
}

/// The compact JSON text of a value (`serde_json::to_string`).
pub fn to_json_text(v: &JsonValue) -> (r: String)
    ensures
        r@ == json_text(v.data()),
{
    let mut out = String::new();
    push_json_text(&mut out, v);
    assert(out@ =~= json_text(v.data()));
    out
}

/// The number of bytes a character takes in UTF-8.
pub open spec fn utf8_width(c: char) -> nat {
    if (c as u32) < 0x80 { 1 } else if (c as u32) < 0x800 { 2 } else if (c as u32) < 0x10000 { 3 } else { 4 }
}

/// The number of bytes a text takes in UTF-8 (`str::len`).
pub open spec fn utf8_len(s: Seq<char>) -> nat
    decreases s.len(),
{
    if s.len() == 0 { 0 } else { utf8_len(s.drop_last()) + utf8_width(s.last()) }
}

/// The number of bytes `s` takes in UTF-8.
pub fn utf8_size(s: &str) -> (r: u128)
    ensures
        r as nat == utf8_len(s@),
{
    let n = s.unicode_len();
    let mut total: u128 = 0;
    let mut i: usize = 0;
    while i < n
        invariant
            n == s@.len(),
            i <= n,
            total as nat == utf8_len(s@.subrange(0, i as int)),
            total <= 4 * i,
        decreases n - i,
    {
        let c = s.get_char(i);
        assert(s@.subrange(0, i + 1).drop_last() =~= s@.subrange(0, i as int));
        let w: u128 = if (c as u32) < 0x80 { 1 } else if (c as u32) < 0x800 { 2 } else if (c as u32) < 0x10000 { 3 } else { 4 };
        total = total + w;
        i += 1;
    }
    assert(s@.subrange(0, n as int) =~= s@);
    total
}

/// The UTF-8 size of two texts one after the other is the sum of theirs.
pub proof fn lemma_utf8_len_concat(a: Seq<char>, b: Seq<char>)
    ensures
        utf8_len(a + b) == utf8_len(a) + utf8_len(b),
    decreases b.len(),
{
    if b.len() > 0 {
        assert((a + b).drop_last() =~= a + b.drop_last());
        lemma_utf8_len_concat(a, b.drop_last());
    } else {
        assert(a + b =~= a);
    }
}

} // verus!
