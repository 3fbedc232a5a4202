//! A JSON document model.
//!
//! Objects keep their entries in a vector, in key order with no key twice,
//! as a map sorted by key does; numbers keep the text they are written in.

use vstd::prelude::*;
use crate::text::{decimal, lemma_text_lt_irreflexive, lemma_text_lt_total, lemma_text_lt_transitive, push_decimal, same_text, text_less, text_lt};

verus! {

/// What a number becomes once its value is rounded to single precision and
/// written back as JSON.
pub enum SingleText {
    /// The JSON text of the rounded value.
    Text(String),
    /// The rounded value is not finite, so it is written as `null`.
    NotFinite,
    /// Not known: the number was built here rather than read from a document.
    Unknown,
}

/// A JSON number: the text it is written in, and its single-precision form.
pub struct JsonNumber {
    pub text: String,
    pub single: SingleText,
}

/// A JSON value.
pub enum JsonValue {
    Null,
    Bool(bool),
    Number(JsonNumber),
    String(String),
    Array(Vec<JsonValue>),
    Object(Vec<(String, JsonValue)>),
}

/// The mathematical form of `SingleText`.
pub enum SingleData {
    Text(Seq<char>),
    NotFinite,
    Unknown,
}

/// The mathematical form of a JSON value.
pub enum JsonData {
    Null,
    Bool(bool),
    Number(Seq<char>, SingleData),
    Str(Seq<char>),
    Array(Seq<JsonData>),
    Object(Seq<(Seq<char>, JsonData)>),
}

impl SingleText {
    pub open spec fn data(&self) -> SingleData {
        match self {
            SingleText::Text(s) => SingleData::Text(s@),
            SingleText::NotFinite => SingleData::NotFinite,
            SingleText::Unknown => SingleData::Unknown,
        }
    }
}

impl JsonValue {
    /// The mathematical form of this value.
    pub open spec fn data(&self) -> JsonData
        decreases self,
    {
        match self {
            JsonValue::Null => JsonData::Null,
            JsonValue::Bool(b) => JsonData::Bool(*b),
            JsonValue::Number(n) => JsonData::Number(n.text@, n.single.data()),
            JsonValue::String(s) => JsonData::Str(s@),
            JsonValue::Array(v) => JsonData::Array(values_data(v@)),
            JsonValue::Object(m) => JsonData::Object(entries_data(m@)),
        }
    }
}

/// The mathematical forms of a sequence of values.
pub open spec fn values_data(s: Seq<JsonValue>) -> Seq<JsonData>
    decreases s,
{
    if s.len() == 0 {
        Seq::empty()
    } else {
        values_data(s.drop_last()).push(s.last().data())
    }
}

/// The mathematical forms of a sequence of object entries.
pub open spec fn entries_data(s: Seq<(String, JsonValue)>) -> Seq<(Seq<char>, JsonData)>
    decreases s,
{
    if s.len() == 0 {
        Seq::empty()
    } else {
        entries_data(s.drop_last()).push((s.last().0@, s.last().1.data()))
    }
}


/// `values_data` keeps the length and maps each element.
pub proof fn lemma_values_data(s: Seq<JsonValue>)
    ensures
        values_data(s).len() == s.len(),
        forall|i: int| 0 <= i < s.len() ==> #[trigger] values_data(s)[i] == s[i].data(),
    decreases s.len(),
{
    if s.len() > 0 {
        lemma_values_data(s.drop_last());
    }
}

/// `entries_data` keeps the length and maps each entry.
pub proof fn lemma_entries_data(s: Seq<(String, JsonValue)>)
    ensures
        entries_data(s).len() == s.len(),
        forall|i: int| 0 <= i < s.len() ==> #[trigger] entries_data(s)[i] == (s[i].0@, s[i].1.data()),
    decreases s.len(),
{
    if s.len() > 0 {
        lemma_entries_data(s.drop_last());
    }
}

/// Position of the first entry at or after `i` whose key is `k`.
pub open spec fn key_index_from(s: Seq<(Seq<char>, JsonData)>, k: Seq<char>, i: int) -> Option<int>
    decreases s.len() - i,
{
    if i < 0 || i >= s.len() {
        None
    } else if s[i].0 == k {
        Some(i)
    } else {
        key_index_from(s, k, i + 1)
    }
}

/// Position of the entry whose key is `k`.
pub open spec fn key_index(s: Seq<(Seq<char>, JsonData)>, k: Seq<char>) -> Option<int> {
    key_index_from(s, k, 0)
}

/// The value stored under `k`, if any.
pub open spec fn lookup(s: Seq<(Seq<char>, JsonData)>, k: Seq<char>) -> Option<JsonData> {
    match key_index(s, k) {
        Some(i) => Some(s[i].1),
        None => None,
    }
}

/// What `key_index_from` returns lies in range, holds `k`, and no entry
/// between `i` and it holds `k`.
pub proof fn lemma_key_index_from(s: Seq<(Seq<char>, JsonData)>, k: Seq<char>, i: int)
    requires
        0 <= i,
    ensures
        match key_index_from(s, k, i) {
            Some(j) => i <= j < s.len() && s[j].0 == k && forall|m: int| i <= m < j ==> s[m].0 != k,
            None => forall|m: int| i <= m < s.len() ==> s[m].0 != k,
        },
    decreases s.len() - i,
{
    if i < s.len() && s[i].0 != k {
        lemma_key_index_from(s, k, i + 1);
    }
}

/// First position at or after `i` whose key is not before `k`.
pub open spec fn insert_pos_from(s: Seq<(Seq<char>, JsonData)>, k: Seq<char>, i: int) -> int
    decreases s.len() - i,
{
    if i < 0 || i >= s.len() {
        s.len() as int
    } else if !text_lt(s[i].0, k) {
        i
    } else {
        insert_pos_from(s, k, i + 1)
    }
}

/// The entries after `k` is set to `v` in a map kept in key order: the
/// value is replaced where `k` is found at its place, else a new entry is
/// put at the first place whose key is not before `k`.
pub open spec fn insert_entry(s: Seq<(Seq<char>, JsonData)>, k: Seq<char>, v: JsonData) -> Seq<(Seq<char>, JsonData)> {
    let p = insert_pos_from(s, k, 0);
    if p < s.len() && s[p].0 == k {
        s.update(p, (k, v))
    } else {
        s.insert(p, (k, v))
    }
}

proof fn lemma_insert_pos_from(s: Seq<(Seq<char>, JsonData)>, k: Seq<char>, i: int)
    requires
        0 <= i <= s.len(),
        forall|m: int| 0 <= m < i ==> text_lt(s[m].0, k),
    ensures
        i <= insert_pos_from(s, k, i) <= s.len(),
        insert_pos_from(s, k, i) == insert_pos_from(s, k, 0),
        forall|m: int| 0 <= m < insert_pos_from(s, k, i) ==> text_lt(#[trigger] s[m].0, k),
        insert_pos_from(s, k, i) < s.len() ==> !text_lt(s[insert_pos_from(s, k, i)].0, k),
    decreases i,
{
    if i > 0 {
        lemma_insert_pos_from(s, k, i - 1);
    }
    lemma_insert_pos_forward(s, k, i);
}

proof fn lemma_insert_pos_forward(s: Seq<(Seq<char>, JsonData)>, k: Seq<char>, i: int)
    requires
        0 <= i <= s.len(),
        forall|m: int| 0 <= m < i ==> text_lt(s[m].0, k),
    ensures
        i <= insert_pos_from(s, k, i) <= s.len(),
        forall|m: int| 0 <= m < insert_pos_from(s, k, i) ==> text_lt(#[trigger] s[m].0, k),
        insert_pos_from(s, k, i) < s.len() ==> !text_lt(s[insert_pos_from(s, k, i)].0, k),
    decreases s.len() - i,
{
    if i < s.len() && text_lt(s[i].0, k) {
        lemma_insert_pos_forward(s, k, i + 1);
    }
}

impl JsonValue {
    /// A copy of this value.
    pub fn deep_copy(&self) -> (r: JsonValue)
        ensures
            r.data() == self.data(),
        decreases self,
    {
        match self {
            JsonValue::Null => JsonValue::Null,
            JsonValue::Bool(b) => JsonValue::Bool(*b),
            JsonValue::Number(n) => JsonValue::Number(n.copy()),
            JsonValue::String(s) => JsonValue::String(s.clone()),
            JsonValue::Array(v) => {
                let mut out: Vec<JsonValue> = Vec::new();
                let mut i: usize = 0;
                while i < v.len()
                    invariant
                        *self == JsonValue::Array(*v),
                        i <= v.len(),
                        values_data(out@) == values_data(v@.subrange(0, i as int)),
                    decreases v.len() - i,
                {
                    proof {
                        assert(decreases_to!(*self => (*self)->Array_0));
                        assert(decreases_to!(*v => v@));
                        assert(decreases_to!(v@ => v@[i as int]));
                    }
                    let c = v[i].deep_copy();
                    proof {
                        assert(out@.push(c).drop_last() =~= out@);
                        assert(v@.subrange(0, i + 1).drop_last() =~= v@.subrange(0, i as int));
                    }
                    out.push(c);
                    i += 1;
                }
                assert(v@.subrange(0, v.len() as int) =~= v@);
                JsonValue::Array(out)
            },
            JsonValue::Object(m) => {
                let mut out: Vec<(String, JsonValue)> = Vec::new();
                let mut i: usize = 0;
                while i < m.len()
                    invariant
                        *self == JsonValue::Object(*m),
                        i <= m.len(),
                        entries_data(out@) == entries_data(m@.subrange(0, i as int)),
                    decreases m.len() - i,
                {
                    proof {
                        assert(decreases_to!(*self => (*self)->Object_0));
                        assert(decreases_to!(*m => m@));
                        assert(decreases_to!(m@ => m@[i as int]));
                        assert(decreases_to!(m@[i as int] => m@[i as int].1));
                    }
                    let c = m[i].1.deep_copy();
                    let k = m[i].0.clone();
                    proof {
                        assert(out@.push((k, c)).drop_last() =~= out@);
                        assert(m@.subrange(0, i + 1).drop_last() =~= m@.subrange(0, i as int));
                    }
                    out.push((k, c));
                    i += 1;
                }
                assert(m@.subrange(0, m.len() as int) =~= m@);
                JsonValue::Object(out)
            },
        }
    }
}

impl JsonNumber {
    /// A copy of this number.
    pub fn copy(&self) -> (r: JsonNumber)
        ensures
            r.text@ == self.text@,
            r.single.data() == self.single.data(),
    {
        let single = match &self.single {
            SingleText::Text(t) => SingleText::Text(t.clone()),
            SingleText::NotFinite => SingleText::NotFinite,
            SingleText::Unknown => SingleText::Unknown,
        };
        JsonNumber { text: self.text.clone(), single }
    }
}

/// Position of the entry of `m` whose key is `key`.
pub fn find_key(m: &Vec<(String, JsonValue)>, key: &str) -> (r: Option<usize>)
    ensures
        match r {
            Some(i) => key_index(entries_data(m@), key@) == Some(i as int),
            None => key_index(entries_data(m@), key@) is None,
        },
{
    proof {
        lemma_entries_data(m@);
        lemma_key_index_from(entries_data(m@), key@, 0);
    }
    let mut i: usize = 0;
    while i < m.len()
        invariant
            i <= m.len(),
            entries_data(m@).len() == m@.len(),
            forall|j: int| 0 <= j < m@.len() ==> #[trigger] entries_data(m@)[j] == (m@[j].0@, m@[j].1.data()),
            forall|j: int| 0 <= j < i ==> m@[j].0@ != key@,
        decreases m.len() - i,
    {
        if same_text(m[i].0.as_str(), key) {
            proof {
                let s = entries_data(m@);
                lemma_key_index_from(s, key@, 0);
                assert(s[i as int].0 == key@);
                match key_index_from(s, key@, 0) {
                    Some(j) => {
                        if j < i {
                            assert(s[j].0 == m@[j].0@);
                        }
                    },
                    None => {},
                }
            }
            return Some(i);
        }
        i += 1;
    }
    proof {
        let s = entries_data(m@);
        lemma_key_index_from(s, key@, 0);
        match key_index_from(s, key@, 0) {
            Some(j) => {
                assert(s[j].0 == m@[j].0@);
            },
            None => {},
        }
    }
    None
}

/// The value that `m` holds under `key`.
pub fn object_get<'a>(m: &'a Vec<(String, JsonValue)>, key: &str) -> (r: Option<&'a JsonValue>)
    ensures
        match r {
            Some(v) => lookup(entries_data(m@), key@) == Some(v.data()),
            None => lookup(entries_data(m@), key@) is None,
        },
{
    proof {
        lemma_entries_data(m@);
        lemma_key_index_from(entries_data(m@), key@, 0);
    }
    match find_key(m, key) {
        Some(i) => {
            assert(entries_data(m@)[i as int] == (m@[i as int].0@, m@[i as int].1.data()));
            Some(&m[i].1)
        },
        None => None,
    }
}

/// Sets `key` to `value` in `m`, keeping key order.
pub fn object_insert(m: &mut Vec<(String, JsonValue)>, key: String, value: JsonValue)
    ensures
        entries_data(final(m)@) == insert_entry(entries_data(old(m)@), key@, value.data()),
{
    let ghost s = entries_data(m@);
    proof {
        lemma_entries_data(m@);
    }
    let mut i: usize = 0;
    while i < m.len() && text_less(m[i].0.as_str(), key.as_str())
        invariant
            i <= m.len(),
            s == entries_data(m@),
            s.len() == m@.len(),
            forall|j: int| 0 <= j < m@.len() ==> #[trigger] s[j] == (m@[j].0@, m@[j].1.data()),
            forall|j: int| 0 <= j < i ==> text_lt(s[j].0, key@),
        decreases m.len() - i,
    {
        i += 1;
    }
    proof {
        lemma_insert_pos_from(s, key@, i as int);
    }
    let ghost p = insert_pos_from(s, key@, 0);
    assert(p == i);
    let ghost vd = value.data();
    let ghost kd = key@;
    if i < m.len() && same_text(m[i].0.as_str(), key.as_str()) {
        m.set(i, (key, value));
        proof {
            lemma_entries_data(m@);
            assert(entries_data(m@) =~= s.update(i as int, (kd, vd)));
        }
    } else {
        m.insert(i, (key, value));
        proof {
            lemma_entries_data(m@);
            assert(entries_data(m@) =~= s.insert(i as int, (kd, vd)));
        }
    }
}

/// The member `k` of `d`, where `d` is an object holding one.
pub open spec fn field_of(d: JsonData, k: Seq<char>) -> Option<JsonData> {
    match d {
        JsonData::Object(s) => lookup(s, k),
        _ => None,
    }
}

impl JsonValue {
    /// The member `key` of this value, where it is an object that holds one
    /// (`Value::get` with a key).
    pub fn get(&self, key: &str) -> (r: Option<&JsonValue>)
        ensures
            match r {
                Some(v) => field_of(self.data(), key@) == Some(v.data()),
                None => field_of(self.data(), key@) is None,
            },
    {
        match self {
            JsonValue::Object(m) => object_get(m, key),
            _ => None,
        }
    }

    /// The text of this value, where it is a string.
    pub fn as_str(&self) -> (r: Option<&str>)
        ensures
            match r {
                Some(s) => self.data() == JsonData::Str(s@),
                None => !(self.data() is Str),
            },
    {
        match self {
            JsonValue::String(s) => Some(s.as_str()),
            _ => None,
        }
    }
}

/// The JSON number of a count: its decimal text, and `.0` after it for its
/// single-precision form where that is exact.
pub open spec fn count_data(n: nat) -> JsonData {
    JsonData::Number(decimal(n), if n < 16777216 { SingleData::Text(decimal(n) + ".0"@) } else { SingleData::Unknown })
}

impl JsonValue {
    /// The JSON number of a count.
    pub fn from_count(n: u128) -> (r: JsonValue)
        ensures
            r.data() == count_data(n as nat),
    {
        let mut text = String::new();
        crate::text::push_decimal_wide(&mut text, n);
        let single = if n < 16777216 {
            let mut t = String::new();
            crate::text::push_decimal_wide(&mut t, n);
            t.append(".0");
            SingleText::Text(t)
        } else {
            SingleText::Unknown
        };
        JsonValue::Number(JsonNumber { text, single })
    }
}

/// The unsigned integer a number is, where its text is one that fits in
/// 64 bits (`Value::as_u64`).
pub open spec fn u64_of(d: JsonData) -> Option<nat> {
    match d {
        JsonData::Number(t, _) => if t.len() > 0 && crate::detection::all_digits(t)
            && crate::detection::digits_value(t) <= u64::MAX {
            Some(crate::detection::digits_value(t))
        } else {
            None
        },
        _ => None,
    }
}

proof fn lemma_digits_prefix_le(s: Seq<char>, j: int)
    requires
        0 <= j <= s.len(),
    ensures
        crate::detection::digits_value(s.subrange(0, j)) <= crate::detection::digits_value(s),
    decreases s.len() - j,
{
    if j < s.len() {
        lemma_digits_prefix_le(s, j + 1);
        assert(s.subrange(0, j + 1).drop_last() =~= s.subrange(0, j));
    } else {
        assert(s.subrange(0, j) =~= s);
    }
}

impl JsonValue {
    /// The value as an unsigned 64-bit integer, where it is one.
    pub fn as_u64(&self) -> (r: Option<u64>)
        ensures
            match r {
                Some(n) => u64_of(self.data()) == Some(n as nat),
                None => u64_of(self.data()) is None,
            },
    {
        let t = match self {
            JsonValue::Number(n) => n.text.as_str(),
            _ => return None,
        };
        let len = t.unicode_len();
        if len == 0 {
            return None;
        }
        let mut value: u64 = 0;
        let mut i: usize = 0;
        while i < len
            invariant
                len == t@.len(),
                i <= len,
                self.data() == JsonData::Number(t@, match self { JsonValue::Number(n) => n.single.data(), _ => SingleData::Unknown }),
                forall|j: int| 0 <= j < i ==> crate::detection::is_ascii_digit(#[trigger] t@[j]),
                value as nat == crate::detection::digits_value(t@.subrange(0, i as int)),
            decreases len - i,
        {
            let c = t.get_char(i);
            if !('0' <= c && c <= '9') {
                assert(!crate::detection::all_digits(t@));
                return None;
            }
            let d: u64 = ((c as u32) - ('0' as u32)) as u64;
            assert(t@.subrange(0, i + 1).drop_last() =~= t@.subrange(0, i as int));
            if value > (u64::MAX - d) / 10 {
                proof {
                    assert(value * 10 + d > u64::MAX) by (nonlinear_arith)
                        requires value > (u64::MAX - d) / 10, d <= 9;
                    lemma_digits_prefix_le(t@, i + 1);
                }
                return None;
            }
            value = value * 10 + d;
            i += 1;
        }
        assert(t@.subrange(0, len as int) =~= t@);
        assert(crate::detection::all_digits(t@));
        Some(value)
    }
}

/// A copy of the entries of an object.
pub fn copy_entries(m: &Vec<(String, JsonValue)>) -> (r: Vec<(String, JsonValue)>)
    ensures
        entries_data(r@) == entries_data(m@),
{
    let mut out: Vec<(String, JsonValue)> = Vec::new();
    let mut i: usize = 0;
    while i < m.len()
        invariant
            i <= m.len(),
            entries_data(out@) == entries_data(m@.subrange(0, i as int)),
        decreases m.len() - i,
    {
        let k = m[i].0.clone();
        let v = m[i].1.deep_copy();
        assert(out@.push((k, v)).drop_last() =~= out@);
        assert(m@.subrange(0, i + 1).drop_last() =~= m@.subrange(0, i as int));
        out.push((k, v));
        i += 1;
    }
    assert(m@.subrange(0, m.len() as int) =~= m@);
    out
}

/// Whether object keys come in strictly increasing order, as in a map.
pub open spec fn keys_sorted(entries: Seq<(Seq<char>, JsonData)>) -> bool {
    forall|i: int, j: int| 0 <= i < j < entries.len() ==> text_lt(#[trigger] entries[i].0, #[trigger] entries[j].0)
}

proof fn lemma_sorted_key_index(s: Seq<(Seq<char>, JsonData)>, k: Seq<char>, i: int)
    requires
        keys_sorted(s),
        0 <= i < s.len(),
        s[i].0 == k,
    ensures
        key_index(s, k) == Some(i),
{
    lemma_key_index_from(s, k, 0);
    lemma_text_lt_irreflexive(k);
    match key_index_from(s, k, 0) {
        Some(j) => {
            if j < i {
                assert(text_lt(s[j].0, s[i].0));
            }
        },
        None => {},
    }
}

proof fn lemma_absent_key_index(s: Seq<(Seq<char>, JsonData)>, k: Seq<char>)
    requires
        forall|i: int| 0 <= i < s.len() ==> s[i].0 != k,
    ensures
        key_index(s, k) is None,
{
    lemma_key_index_from(s, k, 0);
}

/// Setting a key keeps the keys of a map in increasing order.
pub proof fn lemma_insert_entry_sorted(s: Seq<(Seq<char>, JsonData)>, k: Seq<char>, v: JsonData)
    requires
        keys_sorted(s),
    ensures
        keys_sorted(insert_entry(s, k, v)),
{
    lemma_insert_pos_from(s, k, 0);
    let p = insert_pos_from(s, k, 0);
    let t = insert_entry(s, k, v);
    if p < s.len() && s[p].0 == k {
        assert forall|i: int, j: int| 0 <= i < j < t.len() implies text_lt(#[trigger] t[i].0, #[trigger] t[j].0) by {
            assert(t[i].0 == s[i].0);
            assert(t[j].0 == s[j].0);
        }
    } else {
        if p < s.len() {
            lemma_text_lt_total(s[p].0, k);
        }
        assert forall|i: int, j: int| 0 <= i < j < t.len() implies text_lt(#[trigger] t[i].0, #[trigger] t[j].0) by {
            if j < p {
                assert(t[i].0 == s[i].0 && t[j].0 == s[j].0);
            } else if j == p {
                assert(t[i].0 == s[i].0);
            } else {
                assert(t[j].0 == s[j - 1].0);
                assert(text_lt(k, s[j - 1].0)) by {
                    if j - 1 > p {
                        assert(text_lt(s[p].0, s[j - 1].0));
                        lemma_text_lt_transitive(k, s[p].0, s[j - 1].0);
                    }
                }
                if i < p {
                    assert(t[i].0 == s[i].0);
                    lemma_text_lt_transitive(s[i].0, k, s[j - 1].0);
                } else if i > p {
                    assert(t[i].0 == s[i - 1].0);
                }
            }
        }
    }
}

/// In a map kept in key order, the value read under a key just set is the
/// value set, and the values under other keys are those read before.
pub proof fn lemma_insert_entry_lookup(s: Seq<(Seq<char>, JsonData)>, k: Seq<char>, v: JsonData, other: Seq<char>)
    requires
        keys_sorted(s),
    ensures
        lookup(insert_entry(s, k, v), k) == Some(v),
        other != k ==> lookup(insert_entry(s, k, v), other) == lookup(s, other),
{
    lemma_insert_entry_sorted(s, k, v);
    lemma_insert_pos_from(s, k, 0);
    let p = insert_pos_from(s, k, 0);
    let t = insert_entry(s, k, v);
    let updated = p < s.len() && s[p].0 == k;
    assert(t[p].0 == k && t[p].1 == v);
    lemma_sorted_key_index(t, k, p);
    if other != k {
        lemma_key_index_from(s, other, 0);
        match key_index(s, other) {
            Some(i) => {
                let j = if updated || i < p { i } else { i + 1 };
                assert(t[j] == s[i]);
                lemma_sorted_key_index(t, other, j);
            },
            None => {
                assert forall|j: int| 0 <= j < t.len() implies t[j].0 != other by {
                    if j != p {
                        if updated || j < p {
                            assert(t[j] == s[j]);
                        } else {
                            assert(t[j] == s[j - 1]);
                        }
                    }
                }
                lemma_absent_key_index(t, other);
            },
        }
    }
}

/// The entries without the one under `k`.
pub open spec fn remove_key(s: Seq<(Seq<char>, JsonData)>, k: Seq<char>) -> Seq<(Seq<char>, JsonData)> {
    match key_index(s, k) {
        Some(i) => s.remove(i),
        None => s,
    }
}

/// Removes the entry under `key` from `m`, where there is one.
pub fn object_remove(m: &mut Vec<(String, JsonValue)>, key: &str)
    ensures
        entries_data(final(m)@) == remove_key(entries_data(old(m)@), key@),
{
    proof { lemma_entries_data(m@); }
    let ghost s = entries_data(m@);
    match find_key(m, key) {
        Some(i) => {
            proof { lemma_key_index_from(s, key@, 0); }
            m.remove(i);
            proof {
                lemma_entries_data(m@);
                assert(entries_data(m@) =~= s.remove(i as int));
            }
        },
        None => {},
    }
}

/// The JSON number of a signed 32-bit code.
pub open spec fn code_data(n: i32) -> JsonData {
    let text = if n < 0 { seq!['-'] + decimal((-n) as nat) } else { decimal(n as nat) };
    JsonData::Number(text, if -16777216 < n < 16777216 { SingleData::Text(text + ".0"@) } else { SingleData::Unknown })
}

impl JsonValue {
    /// The JSON number of a signed 32-bit code.
    pub fn from_code(n: i32) -> (r: JsonValue)
        ensures
            r.data() == code_data(n),
    {
        let mut text = String::new();
        if n < 0 {
            crate::text::push_char(&mut text, '-');
            let magnitude: u64 = (-(n as i64)) as u64;
            push_decimal(&mut text, magnitude);
        } else {
            push_decimal(&mut text, n as u64);
        }
        let single = if -16777216 < n && n < 16777216 {
            let mut t = text.clone();
            t.append(".0");
            SingleText::Text(t)
        } else {
            SingleText::Unknown
        };
        JsonValue::Number(JsonNumber { text, single })
    }
}

/// The JSON number of a signed 64-bit integer.
pub open spec fn signed_data(n: i64) -> JsonData {
    let text = if n < 0 { seq!['-'] + decimal((-n) as nat) } else { decimal(n as nat) };
    JsonData::Number(text, if -16777216 < n < 16777216 { SingleData::Text(text + ".0"@) } else { SingleData::Unknown })
}

impl JsonValue {
    /// The JSON number of a signed 64-bit integer.
    pub fn from_i64(n: i64) -> (r: JsonValue)
        ensures
            r.data() == signed_data(n),
    {
        let mut text = String::new();
        if n < 0 {
            crate::text::push_char(&mut text, '-');
            let magnitude: u64 = (-(n as i128)) as u64;
            push_decimal(&mut text, magnitude);
        } else {
            push_decimal(&mut text, n as u64);
        }
        let single = if -16777216 < n && n < 16777216 {
            let mut t = text.clone();
            t.append(".0");
            SingleText::Text(t)
        } else {
            SingleText::Unknown
        };
        JsonValue::Number(JsonNumber { text, single })
    }
}

} // verus!
