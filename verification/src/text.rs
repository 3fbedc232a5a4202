//! Character-sequence helpers used throughout the library.

use vstd::prelude::*;

verus! {

/// Appends one character to a string.
///
/// Trusted: wraps `String::push`, whose documentation says it appends the
/// given char to the end of the string.
#[verifier::external_body]
pub(crate) fn push_char(s: &mut String, c: char)
    ensures
        final(s)@ == old(s)@.push(c),
{
    s.push(c);
}

/// The characters of `s`, in order.
pub fn chars_of(s: &str) -> (v: Vec<char>)
    ensures
        v@ == s@,
{
    let n = s.unicode_len();
    let mut v: Vec<char> = Vec::new();
    let mut i: usize = 0;
    while i < n
        invariant
            n == s@.len(),
            i <= n,
            v@ == s@.subrange(0, i as int),
        decreases n - i,
    {
        v.push(s.get_char(i));
        i += 1;
    }
    v
}

/// A string made of the characters of `v`, in order.
pub fn string_of(v: &[char]) -> (s: String)
    ensures
        s@ == v@,
{
    let mut s = String::new();
    let mut i: usize = 0;
    while i < v.len()
        invariant
            i <= v.len(),
            s@ == v@.subrange(0, i as int),
        decreases v.len() - i,
    {
        push_char(&mut s, v[i]);
        i += 1;
    }
    s
}

} // verus!

verus! {

/// Position of the first `c` in `s` at or after `from`, if any.
pub open spec fn index_of_from(s: Seq<char>, c: char, from: int) -> Option<int>
    decreases s.len() - from,
{
    if from < 0 || from >= s.len() {
        None
    } else if s[from] == c {
        Some(from)
    } else {
        index_of_from(s, c, from + 1)
    }
}

/// What `index_of_from` returns lies in range, holds `c`, and nothing between
/// `from` and it holds `c`.
pub proof fn lemma_index_of_from(s: Seq<char>, c: char, from: int)
    requires
        0 <= from,
    ensures
        match index_of_from(s, c, from) {
            Some(i) => from <= i < s.len() && s[i] == c && forall|j: int|
                from <= j < i ==> s[j] != c,
            None => forall|j: int| from <= j < s.len() ==> s[j] != c,
        },
    decreases s.len() - from,
{
    if from < s.len() && s[from] != c {
        lemma_index_of_from(s, c, from + 1);
    }
}

/// Whether the two character sequences are equal.
pub fn eq_chars(a: &[char], b: &[char]) -> (r: bool)
    ensures
        r == (a@ == b@),
{
    if a.len() != b.len() {
        return false;
    }
    let mut i: usize = 0;
    while i < a.len()
        invariant
            a.len() == b.len(),
            i <= a.len(),
            forall|j: int| 0 <= j < i ==> a@[j] == b@[j],
        decreases a.len() - i,
    {
        if a[i] != b[i] {
            return false;
        }
        i += 1;
    }
    assert(a@ =~= b@);
    true
}

/// Whether the characters `a` spell exactly the string `lit`.
pub fn is_text(a: &[char], lit: &str) -> (r: bool)
    ensures
        r == (a@ == lit@),
{
    let b = chars_of(lit);
    eq_chars(a, b.as_slice())
}

/// Position of the first `c` in `a` at or after `from`, if any.
pub fn find_char_from(a: &[char], c: char, from: usize) -> (r: Option<usize>)
    ensures
        r matches Some(i) ==> index_of_from(a@, c, from as int) == Some(i as int),
        r is None ==> index_of_from(a@, c, from as int) is None,
{
    let mut i = from;
    while i < a.len()
        invariant
            from <= i,
            index_of_from(a@, c, from as int) == index_of_from(a@, c, i as int),
        decreases a.len() - i,
    {
        if a[i] == c {
            return Some(i);
        }
        i += 1;
    }
    None
}

/// The characters of `a` from `lo` up to, not including, `hi`.
pub fn sub_chars(a: &[char], lo: usize, hi: usize) -> (r: Vec<char>)
    requires
        lo <= hi <= a.len(),
    ensures
        r@ == a@.subrange(lo as int, hi as int),
{
    let mut r: Vec<char> = Vec::new();
    let mut i = lo;
    while i < hi
        invariant
            lo <= i <= hi,
            hi <= a.len(),
            r@ == a@.subrange(lo as int, i as int),
        decreases hi - i,
    {
        r.push(a[i]);
        i += 1;
    }
    r
}

/// The decimal digit character for `d`.
pub open spec fn digit_char(d: nat) -> char {
    if d == 0 { '0' }
    else if d == 1 { '1' }
    else if d == 2 { '2' }
    else if d == 3 { '3' }
    else if d == 4 { '4' }
    else if d == 5 { '5' }
    else if d == 6 { '6' }
    else if d == 7 { '7' }
    else if d == 8 { '8' }
    else { '9' }
}

/// The decimal digits of `n`, most significant first, without leading zeros.
pub open spec fn decimal(n: nat) -> Seq<char>
    decreases n,
{
    if n < 10 {
        seq![digit_char(n)]
    } else {
        decimal(n / 10).push(digit_char(n % 10))
    }
}

fn digit_of(d: u64) -> (c: char)
    requires
        d < 10,
    ensures
        c == digit_char(d as nat),
{
    if d == 0 { '0' }
    else if d == 1 { '1' }
    else if d == 2 { '2' }
    else if d == 3 { '3' }
    else if d == 4 { '4' }
    else if d == 5 { '5' }
    else if d == 6 { '6' }
    else if d == 7 { '7' }
    else if d == 8 { '8' }
    else { '9' }
}

/// Appends the decimal digits of `n` to `s`.
pub fn push_decimal(s: &mut String, n: u64)
    ensures
        final(s)@ == old(s)@ + decimal(n as nat),
    decreases n,
{
    if n < 10 {
        push_char(s, digit_of(n));
        assert(decimal(n as nat) =~= seq![digit_char(n as nat)]);
    } else {
        push_decimal(s, n / 10);
        push_char(s, digit_of(n % 10));
        assert(decimal(n as nat) =~= decimal((n / 10) as nat).push(digit_char((n % 10) as nat)));
    }
}

/// The decimal text of `n`, as `n.to_string()` writes it.
pub fn decimal_string(n: u64) -> (s: String)
    ensures
        s@ == decimal(n as nat),
{
    let mut s = String::new();
    push_decimal(&mut s, n);
    assert(s@ =~= decimal(n as nat));
    s
}

/// Appends the characters of `a` to `s`.
pub fn push_chars(s: &mut String, a: &[char])
    ensures
        final(s)@ == old(s)@ + a@,
{
    let mut i: usize = 0;
    while i < a.len()
        invariant
            i <= a.len(),
            s@ == old(s)@ + a@.subrange(0, i as int),
        decreases a.len() - i,
    {
        push_char(s, a[i]);
        assert(a@.subrange(0, i + 1) =~= a@.subrange(0, i as int).push(a@[i as int]));
        i += 1;
    }
    assert(a@.subrange(0, a.len() as int) =~= a@);
}

} // verus!

verus! {

/// Whether `n` occurs in `h` starting at position `i`.
pub open spec fn occurs_at(h: Seq<char>, n: Seq<char>, i: int) -> bool {
    0 <= i && i + n.len() <= h.len() && h.subrange(i, i + n.len()) == n
}

/// Whether `n` occurs anywhere in `h` (as `str::contains` decides).
pub open spec fn has_substring(h: Seq<char>, n: Seq<char>) -> bool {
    exists|i: int| occurs_at(h, n, i)
}

/// Whether `a` occurs in `h` at position `i`.
fn occurs_at_exec(h: &[char], n: &[char], i: usize) -> (r: bool)
    requires
        i + n.len() <= h.len(),
    ensures
        r == occurs_at(h@, n@, i as int),
{
    let mut j: usize = 0;
    while j < n.len()
        invariant
            i + n.len() <= h.len(),
            j <= n.len(),
            forall|k: int| 0 <= k < j ==> h@[i + k] == n@[k],
        decreases n.len() - j,
    {
        if h[i + j] != n[j] {
            assert(h@.subrange(i as int, i + n.len())[j as int] != n@[j as int]);
            return false;
        }
        j += 1;
    }
    assert(h@.subrange(i as int, i + n.len()) =~= n@);
    true
}

/// Position of the first occurrence of `n` in `h` at or after `from`.
pub open spec fn find_from(h: Seq<char>, n: Seq<char>, from: int) -> Option<int>
    decreases h.len() + 1 - from,
{
    if from < 0 || from + n.len() > h.len() {
        None
    } else if occurs_at(h, n, from) {
        Some(from)
    } else {
        find_from(h, n, from + 1)
    }
}

/// What `find_from` returns is the first occurrence at or after `from`.
pub proof fn lemma_find_from(h: Seq<char>, n: Seq<char>, from: int)
    requires
        0 <= from,
    ensures
        match find_from(h, n, from) {
            Some(i) => from <= i && occurs_at(h, n, i) && forall|j: int|
                from <= j < i ==> !occurs_at(h, n, j),
            None => forall|j: int| from <= j ==> !occurs_at(h, n, j),
        },
    decreases h.len() + 1 - from,
{
    if from + n.len() <= h.len() && !occurs_at(h, n, from) {
        lemma_find_from(h, n, from + 1);
    }
}

/// `n` occurs in `h` exactly when `find_from(h, n, 0)` finds it.
pub proof fn lemma_has_substring_find(h: Seq<char>, n: Seq<char>)
    ensures
        has_substring(h, n) <==> find_from(h, n, 0) is Some,
{
    lemma_find_from(h, n, 0);
}

/// Position of the first occurrence of `n` in `h` at or after `from`.
pub fn find_chars_from(h: &[char], n: &[char], from: usize) -> (r: Option<usize>)
    ensures
        r matches Some(i) ==> find_from(h@, n@, from as int) == Some(i as int),
        r is None ==> find_from(h@, n@, from as int) is None,
{
    if n.len() > h.len() || from > h.len() {
        return None;
    }
    if n.len() == 0 {
        assert(h@.subrange(from as int, from as int) =~= n@);
        return Some(from);
    }
    let mut i = from;
    while i <= h.len() - n.len()
        invariant
            1 <= n.len() <= h.len(),
            from <= i <= h.len(),
            find_from(h@, n@, from as int) == find_from(h@, n@, i as int),
        decreases h.len() - i,
    {
        if occurs_at_exec(h, n, i) {
            return Some(i);
        }
        i += 1;
    }
    None
}

/// Whether `n` occurs in `h`.
pub fn contains_chars(h: &[char], n: &[char]) -> (r: bool)
    ensures
        r == has_substring(h@, n@),
{
    proof { lemma_has_substring_find(h@, n@); }
    find_chars_from(h, n, 0).is_some()
}

/// Whether the text `n` occurs in the text `h` (`str::contains`).
pub fn contains_text(h: &str, n: &str) -> (r: bool)
    ensures
        r == has_substring(h@, n@),
{
    let hc = chars_of(h);
    let nc = chars_of(n);
    contains_chars(hc.as_slice(), nc.as_slice())
}

/// Whether `h` begins with `n` (`str::starts_with`).
pub fn starts_with_chars(h: &[char], n: &[char]) -> (r: bool)
    ensures
        r == (n.len() <= h.len() && h@.subrange(0, n.len() as int) == n@),
{
    if n.len() > h.len() {
        return false;
    }
    occurs_at_exec(h, n, 0)
}

/// Whether `h` ends with `n` (`str::ends_with`).
pub fn ends_with_chars(h: &[char], n: &[char]) -> (r: bool)
    ensures
        r == (n.len() <= h.len() && h@.subrange(h.len() - n.len(), h.len() as int) == n@),
{
    if n.len() > h.len() {
        return false;
    }
    occurs_at_exec(h, n, h.len() - n.len())
}

/// `a` followed by `b`, as a new string.
pub fn concat2(a: &str, b: &str) -> (r: String)
    ensures
        r@ == a@ + b@,
{
    let mut s = String::from_str(a);
    s.append(b);
    s
}

/// `a`, `b` and `c` in order, as a new string.
pub fn concat3(a: &str, b: &str, c: &str) -> (r: String)
    ensures
        r@ == a@ + b@ + c@,
{
    let mut s = String::from_str(a);
    s.append(b);
    s.append(c);
    s
}

/// `a`, `b`, `c` and `d` in order, as a new string.
pub fn concat4(a: &str, b: &str, c: &str, d: &str) -> (r: String)
    ensures
        r@ == a@ + b@ + c@ + d@,
{
    let mut s = String::from_str(a);
    s.append(b);
    s.append(c);
    s.append(d);
    s
}

/// `a` through `e` in order, as a new string.
pub fn concat5(a: &str, b: &str, c: &str, d: &str, e: &str) -> (r: String)
    ensures
        r@ == a@ + b@ + c@ + d@ + e@,
{
    let mut s = String::from_str(a);
    s.append(b);
    s.append(c);
    s.append(d);
    s.append(e);
    s
}

} // verus!

verus! {

/// Whether `a` and `b` hold the same characters.
pub fn same_text(a: &str, b: &str) -> (r: bool)
    ensures
        r == (a@ == b@),
{
    let n = a.unicode_len();
    if n != b.unicode_len() {
        return false;
    }
    let mut i: usize = 0;
    while i < n
        invariant
            n == a@.len(),
            n == b@.len(),
            i <= n,
            forall|j: int| 0 <= j < i ==> a@[j] == b@[j],
        decreases n - i,
    {
        if a.get_char(i) != b.get_char(i) {
            return false;
        }
        i += 1;
    }
    assert(a@ =~= b@);
    true
}

/// Lexicographic order by code point, from position `i` on, given that the
/// two sequences agree before `i`.
pub open spec fn text_lt_from(a: Seq<char>, b: Seq<char>, i: int) -> bool
    decreases a.len() - i,
{
    if i < 0 || i >= a.len() {
        i < b.len()
    } else if i >= b.len() {
        false
    } else if a[i] != b[i] {
        a[i] < b[i]
    } else {
        text_lt_from(a, b, i + 1)
    }
}

/// `a` comes strictly before `b` in code point order, the order of `String`.
pub open spec fn text_lt(a: Seq<char>, b: Seq<char>) -> bool {
    text_lt_from(a, b, 0)
}

/// Whether `a` comes strictly before `b` in code point order.
pub fn text_less(a: &str, b: &str) -> (r: bool)
    ensures
        r == text_lt(a@, b@),
{
    let na = a.unicode_len();
    let nb = b.unicode_len();
    let mut i: usize = 0;
    while i < na && i < nb
        invariant
            na == a@.len(),
            nb == b@.len(),
            i <= na,
            i <= nb,
            text_lt_from(a@, b@, 0) == text_lt_from(a@, b@, i as int),
        decreases na - i,
    {
        let ca = a.get_char(i);
        let cb = b.get_char(i);
        if ca != cb {
            return ca < cb;
        }
        i += 1;
    }
    i < nb && i == na
}

} // verus!

verus! {

/// The texts `items` with `sep` between each two (`[String]::join`).
pub open spec fn joined(items: Seq<Seq<char>>, sep: Seq<char>) -> Seq<char>
    decreases items.len(),
{
    if items.len() == 0 {
        Seq::empty()
    } else if items.len() == 1 {
        items[0]
    } else {
        joined(items.drop_last(), sep) + sep + items.last()
    }
}

/// The views of a sequence of strings.
pub open spec fn texts_of(v: Seq<String>) -> Seq<Seq<char>> {
    Seq::new(v.len(), |i: int| v[i]@)
}

/// The strings of `items` joined with `sep`.
pub fn join_texts(items: &Vec<String>, sep: &str) -> (r: String)
    ensures
        r@ == joined(texts_of(items@), sep@),
{
    let mut out = String::new();
    let mut i: usize = 0;
    while i < items.len()
        invariant
            i <= items.len(),
            out@ == joined(texts_of(items@.subrange(0, i as int)), sep@),
        decreases items.len() - i,
    {
        let ghost prev = texts_of(items@.subrange(0, i as int));
        let ghost next = texts_of(items@.subrange(0, i + 1));
        assert(next.drop_last() =~= prev);
        if i > 0 {
            out.append(sep);
        } else {
            assert(prev =~= Seq::<Seq<char>>::empty());
        }
        out.append(items[i].as_str());
        i += 1;
    }
    assert(items@.subrange(0, items.len() as int) =~= items@);
    out
}

} // verus!

verus! {

/// Appends the decimal digits of a 128-bit `n` to `s`.
pub fn push_decimal_wide(s: &mut String, n: u128)
    ensures
        final(s)@ == old(s)@ + decimal(n as nat),
    decreases n,
{
    if n < 10 {
        push_decimal(s, n as u64);
    } else {
        push_decimal_wide(s, n / 10);
        let d = (n % 10) as u64;
        push_decimal(s, d);
        assert(decimal(d as nat) =~= seq![digit_char(d as nat)]);
        assert(decimal(n as nat) =~= decimal((n / 10) as nat).push(digit_char((n % 10) as nat)));
    }
}

} // verus!

verus! {

proof fn lemma_text_lt_from_irreflexive(a: Seq<char>, i: int)
    requires
        0 <= i,
    ensures
        !text_lt_from(a, a, i),
    decreases a.len() - i,
{
    if i < a.len() {
        lemma_text_lt_from_irreflexive(a, i + 1);
    }
}

proof fn lemma_text_lt_from_asymmetric(a: Seq<char>, b: Seq<char>, i: int)
    requires
        0 <= i,
        text_lt_from(a, b, i),
    ensures
        !text_lt_from(b, a, i),
    decreases a.len() - i,
{
    if i < a.len() && i < b.len() && a[i] == b[i] {
        lemma_text_lt_from_asymmetric(a, b, i + 1);
    }
}

proof fn lemma_text_lt_from_total(a: Seq<char>, b: Seq<char>, i: int)
    requires
        0 <= i <= a.len(),
        i <= b.len(),
        a.subrange(0, i) == b.subrange(0, i),
        a != b,
    ensures
        text_lt_from(a, b, i) || text_lt_from(b, a, i),
    decreases a.len() - i,
{
    if i == a.len() && i == b.len() {
        assert(a =~= a.subrange(0, i));
        assert(b =~= b.subrange(0, i));
    } else if i < a.len() && i < b.len() && a[i] == b[i] {
        assert(a.subrange(0, i + 1) =~= a.subrange(0, i).push(a[i]));
        assert(b.subrange(0, i + 1) =~= b.subrange(0, i).push(b[i]));
        lemma_text_lt_from_total(a, b, i + 1);
    } else if i < a.len() && i < b.len() {
        assert(a[i] != b[i]);
    }
}

proof fn lemma_text_lt_from_transitive(a: Seq<char>, b: Seq<char>, c: Seq<char>, i: int)
    requires
        0 <= i,
        text_lt_from(a, b, i),
        text_lt_from(b, c, i),
    ensures
        text_lt_from(a, c, i),
    decreases a.len() - i,
{
    if i < a.len() && i < b.len() && i < c.len() && a[i] == b[i] && b[i] == c[i] {
        lemma_text_lt_from_transitive(a, b, c, i + 1);
    }
}

/// No text comes before itself.
pub proof fn lemma_text_lt_irreflexive(a: Seq<char>)
    ensures
        !text_lt(a, a),
{
    lemma_text_lt_from_irreflexive(a, 0);
}

/// Of two different texts, one comes before the other, and not both ways.
pub proof fn lemma_text_lt_total(a: Seq<char>, b: Seq<char>)
    ensures
        a != b ==> (text_lt(a, b) || text_lt(b, a)),
        text_lt(a, b) ==> !text_lt(b, a),
{
    if a != b {
        assert(a.subrange(0, 0) =~= b.subrange(0, 0));
        lemma_text_lt_from_total(a, b, 0);
    }
    if text_lt(a, b) {
        lemma_text_lt_from_asymmetric(a, b, 0);
    }
}

/// The order of texts is transitive.
pub proof fn lemma_text_lt_transitive(a: Seq<char>, b: Seq<char>, c: Seq<char>)
    requires
        text_lt(a, b),
        text_lt(b, c),
    ensures
        text_lt(a, c),
{
    lemma_text_lt_from_transitive(a, b, c, 0);
}

} // verus!
