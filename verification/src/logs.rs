//! Names, paths and sizes of the server's log files.

use vstd::prelude::*;
use vstd::arithmetic::power2::{pow2, lemma2_to64, lemma2_to64_rest, lemma_pow2_pos, lemma_pow2_unfold, lemma_pow2_strictly_increases};
use crate::text::{chars_of, decimal, digit_char, push_char, push_decimal, string_of, sub_chars};

verus! {

pub const LOG_PREFIX: &'static str = "bevy_brp_mcp_";
pub const LOG_EXTENSION: &'static str = ".log";

/// Whether `s` begins with `p`.
pub open spec fn starts_with(s: Seq<char>, p: Seq<char>) -> bool {
    p.len() <= s.len() && s.subrange(0, p.len() as int) == p
}

/// Whether `s` ends with `p`.
pub open spec fn ends_with(s: Seq<char>, p: Seq<char>) -> bool {
    p.len() <= s.len() && s.subrange(s.len() - p.len(), s.len() as int) == p
}

/// Whether a filename follows the log naming convention.
pub open spec fn is_log_name(f: Seq<char>) -> bool {
    starts_with(f, LOG_PREFIX@) && ends_with(f, LOG_EXTENSION@)
}

/// `s` with every leading copy of `p` removed (`str::trim_start_matches`).
pub open spec fn trim_start_all(s: Seq<char>, p: Seq<char>) -> Seq<char>
    decreases s.len(),
{
    if p.len() > 0 && starts_with(s, p) {
        trim_start_all(s.subrange(p.len() as int, s.len() as int), p)
    } else {
        s
    }
}

/// `s` with every trailing copy of `p` removed (`str::trim_end_matches`).
pub open spec fn trim_end_all(s: Seq<char>, p: Seq<char>) -> Seq<char>
    decreases s.len(),
{
    if p.len() > 0 && ends_with(s, p) {
        trim_end_all(s.subrange(0, s.len() - p.len()), p)
    } else {
        s
    }
}

/// Position of the last `c` in `s`.
pub open spec fn last_index_of(s: Seq<char>, c: char) -> Option<int>
    decreases s.len(),
{
    if s.len() == 0 {
        None
    } else if s.last() == c {
        Some(s.len() - 1)
    } else {
        last_index_of(s.drop_last(), c)
    }
}

/// The app name and timestamp of a log filename: what lies between the
/// prefix and the extension, split at its last underscore.
pub open spec fn log_name_parts(f: Seq<char>) -> Option<(Seq<char>, Seq<char>)> {
    if !is_log_name(f) {
        None
    } else {
        let core = trim_end_all(trim_start_all(f, LOG_PREFIX@), LOG_EXTENSION@);
        match last_index_of(core, '_') {
            Some(i) => Some((core.subrange(0, i), core.subrange(i + 1, core.len() as int))),
            None => None,
        }
    }
}

fn starts_with_exec(s: &Vec<char>, p: &Vec<char>) -> (r: bool)
    ensures
        r == starts_with(s@, p@),
{
    crate::text::starts_with_chars(s.as_slice(), p.as_slice())
}

fn ends_with_exec(s: &Vec<char>, p: &Vec<char>) -> (r: bool)
    ensures
        r == ends_with(s@, p@),
{
    crate::text::ends_with_chars(s.as_slice(), p.as_slice())
}

/// Validates whether a filename follows the log naming convention.
pub fn is_valid_log_filename(filename: &str) -> (r: bool)
    ensures
        r == is_log_name(filename@),
{
    let f = chars_of(filename);
    let p = chars_of(LOG_PREFIX);
    let e = chars_of(LOG_EXTENSION);
    starts_with_exec(&f, &p) && ends_with_exec(&f, &e)
}

fn trim_start_exec(s: Vec<char>, p: &Vec<char>) -> (r: Vec<char>)
    ensures
        r@ == trim_start_all(s@, p@),
    decreases s@.len(),
{
    if p.len() > 0 && starts_with_exec(&s, p) {
        let rest = sub_chars(s.as_slice(), p.len(), s.len());
        trim_start_exec(rest, p)
    } else {
        s
    }
}

pub fn trim_end_exec(s: Vec<char>, p: &Vec<char>) -> (r: Vec<char>)
    ensures
        r@ == trim_end_all(s@, p@),
    decreases s@.len(),
{
    if p.len() > 0 && ends_with_exec(&s, p) {
        let rest = sub_chars(s.as_slice(), 0, s.len() - p.len());
        trim_end_exec(rest, p)
    } else {
        s
    }
}

fn last_index_exec(s: &Vec<char>, c: char) -> (r: Option<usize>)
    ensures
        match r {
            Some(i) => last_index_of(s@, c) == Some(i as int),
            None => last_index_of(s@, c) is None,
        },
{
    let mut i: usize = s.len();
    assert(s@.subrange(0, s@.len() as int) =~= s@);
    while i > 0
        invariant
            i <= s.len(),
            last_index_of(s@, c) == last_index_of(s@.subrange(0, i as int), c),
        decreases i,
    {
        let ghost pre = s@.subrange(0, i as int);
        assert(pre.drop_last() =~= s@.subrange(0, i - 1));
        if s[i - 1] == c {
            return Some(i - 1);
        }
        i -= 1;
    }
    None
}

proof fn lemma_last_index_of(s: Seq<char>, c: char)
    ensures
        last_index_of(s, c) matches Some(i) ==> 0 <= i < s.len(),
    decreases s.len(),
{
    if s.len() > 0 && s.last() != c {
        lemma_last_index_of(s.drop_last(), c);
    }
}

/// Parses a log filename into its app name and timestamp.
pub fn parse_log_filename(filename: &str) -> (r: Option<(String, String)>)
    ensures
        match r {
            Some((app, stamp)) => log_name_parts(filename@) == Some((app@, stamp@)),
            None => log_name_parts(filename@) is None,
        },
{
    if !is_valid_log_filename(filename) {
        return None;
    }
    let p = chars_of(LOG_PREFIX);
    let e = chars_of(LOG_EXTENSION);
    let core = trim_end_exec(trim_start_exec(chars_of(filename), &p), &e);
    proof { lemma_last_index_of(core@, '_'); }
    match last_index_exec(&core, '_') {
        Some(i) => {
            let app = string_of(sub_chars(core.as_slice(), 0, i).as_slice());
            let stamp = string_of(sub_chars(core.as_slice(), i + 1, core.len()).as_slice());
            Some((app, stamp))
        },
        None => None,
    }
}

/// How many low bits a count loses when held with 53 significant bits.
pub open spec fn dropped_bits(b: nat) -> nat
    decreases b,
{
    if b < 9007199254740992 { 0 } else { 1 + dropped_bits(b / 2) }
}

/// `n / d` rounded to the nearest integer, ties to even.
pub open spec fn round_half_even(n: nat, d: nat) -> nat
    recommends
        d > 0,
{
    let q = n / d;
    let r = n % d;
    if 2 * r > d || (2 * r == d && q % 2 == 1) { q + 1 } else { q }
}

/// A byte count as a double holds it: rounded to 53 significant bits,
/// ties to even.
pub open spec fn as_double(b: nat) -> nat {
    let p = pow2(dropped_bits(b));
    round_half_even(b, p) * p
}

/// 1024 to the power `k`.
pub open spec fn pow1024(k: nat) -> nat
    decreases k,
{
    if k == 0 { 1 } else { 1024 * pow1024((k - 1) as nat) }
}

/// The unit that a size is shown in: the largest of B, KB, MB, GB that
/// leaves at least 1.
pub open spec fn unit_index(v: nat) -> nat {
    if v < pow1024(1) { 0 } else if v < pow1024(2) { 1 } else if v < pow1024(3) { 2 } else { 3 }
}

pub open spec fn unit_name(k: nat) -> Seq<char> {
    if k == 0 { "B"@ } else if k == 1 { "KB"@ } else if k == 2 { "MB"@ } else { "GB"@ }
}

/// A count of hundredths written with two decimal places.
pub open spec fn two_places(n: nat) -> Seq<char> {
    decimal(n / 100) + seq!['.', digit_char((n / 10) % 10), digit_char(n % 10)]
}

/// The human-readable size: bytes as an integer, larger units with two
/// decimals rounded half to even, as `{:.2}` writes the double.
pub open spec fn bytes_text(b: nat) -> Seq<char> {
    let v = as_double(b);
    let k = unit_index(v);
    if k == 0 {
        decimal(b) + " "@ + unit_name(0)
    } else {
        two_places(round_half_even(v * 100, pow1024(k))) + " "@ + unit_name(k)
    }
}

proof fn lemma_pow2_positive(e: nat)
    ensures
        pow2(e) >= 1,
{
    lemma_pow2_pos(e);
}

proof fn lemma_pow2_values()
    ensures
        pow2(0) == 1,
        pow2(11) == 2048,
        pow2(53) == 9007199254740992,
        pow2(64) == 18446744073709551616,
{
    lemma2_to64();
    lemma2_to64_rest();
}

proof fn lemma_dropped_bits(b: nat, k: nat)
    requires
        b < pow2(53 + k),
    ensures
        dropped_bits(b) <= k,
        b / pow2(dropped_bits(b)) < 9007199254740992,
    decreases k,
{
    lemma_pow2_values();
    if b < 9007199254740992 {
        assert(dropped_bits(b) == 0);
        assert(b / 1 == b);
    } else {
        if k == 0 {
            assert(false);
        } else {
            lemma_pow2_unfold(53 + k);
            assert(b / 2 < pow2(53 + (k - 1) as nat));
            lemma_dropped_bits(b / 2, (k - 1) as nat);
            let d = dropped_bits(b / 2);
            lemma_pow2_positive(d);
            lemma_pow2_unfold(d + 1);
            lemma_div_twice(b, pow2(d));
            assert(dropped_bits(b) == 1 + d);
            assert(b / pow2(d + 1) == (b / 2) / pow2(d));
        }
    }
}

proof fn lemma_div_twice(b: nat, p: nat)
    requires
        p >= 1,
    ensures
        b / (2 * p) == (b / 2) / p,
{
    vstd::arithmetic::div_mod::lemma_div_denominator(b as int, 2, p as int);
}

/// Rounds `n / d` to the nearest integer, ties to even.
fn round_half_even_exec(n: u128, d: u128) -> (r: u128)
    requires
        d > 0,
        n / d < u128::MAX,
    ensures
        r as nat == round_half_even(n as nat, d as nat),
{
    let q = n / d;
    let r = n % d;
    if (r > d - r) || (r == d - r && q % 2 == 1) { q + 1 } else { q }
}

fn pow2_exec(e: u32) -> (r: u128)
    requires
        e <= 64,
    ensures
        r as nat == pow2(e as nat),
{
    let mut p: u128 = 1;
    let mut i: u32 = 0;
    proof { lemma_pow2_values(); }
    while i < e
        invariant
            i <= e <= 64,
            p as nat == pow2(i as nat),
            pow2(64) == 18446744073709551616,
        decreases e - i,
    {
        proof {
            lemma_pow2_mono(i as nat, 63);
            lemma_pow2_unfold(64);
            lemma_pow2_unfold((i + 1) as nat);
        }
        p = p * 2;
        i += 1;
    }
    p
}

proof fn lemma_pow2_mono(a: nat, b: nat)
    requires
        a <= b,
    ensures
        pow2(a) <= pow2(b),
{
    if a < b {
        lemma_pow2_strictly_increases(a, b);
    }
}

fn as_double_exec(b: u64) -> (r: u128)
    ensures
        r as nat == as_double(b as nat),
{
    proof {
        lemma_pow2_values();
        assert(53nat + 11nat == 64nat);
        lemma_dropped_bits(b as nat, 11);
    }
    let limit = pow2_exec(53);
    let mut e: u32 = 0;
    let mut rest: u64 = b;
    while (rest as u128) >= limit
        invariant
            limit == 9007199254740992,
            limit as nat == pow2(53),
            dropped_bits(b as nat) == e + dropped_bits(rest as nat),
            e <= 11,
            dropped_bits(b as nat) <= 11,
        decreases rest,
    {
        rest = rest / 2;
        e += 1;
    }
    proof {
        lemma_pow2_mono(e as nat, 11);
    }
    let p = pow2_exec(e);
    proof {
        lemma_pow2_positive(e as nat);
        assert((b as nat) / (p as nat) <= b as nat) by (nonlinear_arith)
            requires p >= 1;
    }
    let q = round_half_even_exec(b as u128, p);
    proof {
        lemma_pow2_values();
        assert(q as nat <= (b as nat) / (p as nat) + 1);
        assert(q as nat * (p as nat) <= ((b as nat) / (p as nat) + 1) * (p as nat)) by (nonlinear_arith)
            requires q as nat <= (b as nat) / (p as nat) + 1;
        assert(((b as nat) / (p as nat) + 1) * (p as nat) <= b as nat + p as nat) by (nonlinear_arith)
            requires p >= 1;
    }
    q * p
}

fn two_places_exec(s: &mut String, n: u128)
    requires
        n / 100 <= u64::MAX,
    ensures
        final(s)@ == old(s)@ + two_places(n as nat),
{
    push_decimal(s, (n / 100) as u64);
    push_char(s, '.');
    let tens = ((n / 10) % 10) as u64;
    let ones = (n % 10) as u64;
    push_decimal(s, tens);
    push_decimal(s, ones);
    proof {
        reveal_with_fuel(decimal, 2);
    }
    assert(s@ =~= old(s)@ + two_places(n as nat));
}

/// Formats a byte count for people: `512 B`, `1.50 KB`, `2.00 GB`.
pub fn format_bytes(bytes: u64) -> (r: String)
    ensures
        r@ == bytes_text(bytes as nat),
{
    let v = as_double_exec(bytes);
    let k: u32 = if v < 1024 {
        0
    } else if v < 1024 * 1024 {
        1
    } else if v < 1024 * 1024 * 1024 {
        2
    } else {
        3
    };
    proof {
        reveal_with_fuel(pow1024, 4);
    }
    let mut s = String::new();
    if k == 0 {
        push_decimal(&mut s, bytes);
        s.append(" ");
        s.append("B");
        return s;
    }
    let d: u128 = if k == 1 { 1024 } else if k == 2 { 1024 * 1024 } else { 1024 * 1024 * 1024 };
    proof {
        lemma_pow2_values();
        lemma_as_double_bound(bytes as nat);
    }
    let n = round_half_even_exec(v * 100, d);
    proof {
        vstd::arithmetic::div_mod::lemma_div_is_ordered_by_denominator((v * 100) as int, 1024, d as int);
        assert((v as nat * 100) / 1024 <= 18446744073709551616 * 100 / 1024) by (nonlinear_arith)
            requires v <= 18446744073709551616nat;
    }
    two_places_exec(&mut s, n);
    s.append(" ");
    s.append(if k == 1 { "KB" } else if k == 2 { "MB" } else { "GB" });
    s
}

proof fn lemma_as_double_bound(b: nat)
    requires
        b < pow2(64),
    ensures
        as_double(b) <= pow2(64),
{
    lemma_pow2_values();
    assert(53nat + 11nat == 64nat);
    lemma_dropped_bits(b, 11);
    let p = pow2(dropped_bits(b));
    lemma_pow2_positive(dropped_bits(b));
    assert(round_half_even(b, p) <= b / p + 1);
    assert(round_half_even(b, p) <= pow2(53));
    lemma_pow2_mono(dropped_bits(b), 11);
    assert(round_half_even(b, p) * p <= pow2(53) * pow2(11)) by (nonlinear_arith)
        requires round_half_even(b, p) <= pow2(53), p <= pow2(11);
}

/// `name` joined to the directory `dir` as `Path::join` does on Unix: an
/// absolute name stands alone, and a separator is put between the two
/// unless the directory is empty or already ends with one.
pub open spec fn joined_path(dir: Seq<char>, name: Seq<char>) -> Seq<char> {
    if name.len() > 0 && name[0] == '/' {
        name
    } else if dir.len() == 0 || dir.last() == '/' {
        dir + name
    } else {
        dir + seq!['/'] + name
    }
}

/// The full path of a log file in the log directory `log_dir`.
pub fn get_log_file_path(log_dir: &str, filename: &str) -> (r: String)
    ensures
        r@ == joined_path(log_dir@, filename@),
{
    let n = filename.unicode_len();
    if n > 0 && filename.get_char(0) == '/' {
        return String::from_str(filename);
    }
    let d = log_dir.unicode_len();
    let mut s = String::from_str(log_dir);
    if !(d == 0 || log_dir.get_char(d - 1) == '/') {
        push_char(&mut s, '/');
    }
    s.append(filename);
    s
}

proof fn lemma_last_underscore(a: Seq<char>, b: Seq<char>)
    requires
        forall|i: int| 0 <= i < b.len() ==> b[i] != '_',
    ensures
        last_index_of(a + seq!['_'] + b, '_') == Some(a.len() as int),
    decreases b.len(),
{
    let s = a + seq!['_'] + b;
    if b.len() == 0 {
        assert(s.last() == '_');
    } else {
        assert(s.last() == b.last());
        assert(s.drop_last() =~= a + seq!['_'] + b.drop_last());
        lemma_last_underscore(a, b.drop_last());
    }
}

/// A log filename made of the prefix, an app name, an underscore, a
/// timestamp and the extension parses back into that app name and
/// timestamp, where the timestamp holds no underscore and does not itself
/// end in the extension, and the name after the prefix does not itself
/// start with the prefix.
pub proof fn lemma_log_filename_roundtrip(app: Seq<char>, stamp: Seq<char>)
    requires
        forall|i: int| 0 <= i < stamp.len() ==> stamp[i] != '_',
        !ends_with(stamp, LOG_EXTENSION@),
        !starts_with(app + seq!['_'] + stamp + LOG_EXTENSION@, LOG_PREFIX@),
    ensures
        log_name_parts(LOG_PREFIX@ + app + seq!['_'] + stamp + LOG_EXTENSION@) == Some((app, stamp)),
{
    reveal_strlit(".log");
    reveal_strlit("bevy_brp_mcp_");
    let p = LOG_PREFIX@;
    let e = LOG_EXTENSION@;
    let y = app + seq!['_'] + stamp;
    let x = y + e;
    let f = p + x;
    assert(f =~= p + app + seq!['_'] + stamp + e);
    assert(f.subrange(0, p.len() as int) =~= p);
    assert(f.subrange(f.len() - e.len(), f.len() as int) =~= e);
    assert(is_log_name(f));
    assert(f.subrange(p.len() as int, f.len() as int) =~= x);
    assert(trim_start_all(f, p) == trim_start_all(x, p));
    assert(trim_start_all(x, p) == x);
    assert(x.subrange(x.len() - e.len(), x.len() as int) =~= e);
    assert(x.subrange(0, x.len() - e.len()) =~= y);
    assert(trim_end_all(x, e) == trim_end_all(y, e));
    assert(!ends_with(y, e)) by {
        if ends_with(y, e) {
            let tail = y.subrange(y.len() - e.len(), y.len() as int);
            if stamp.len() >= e.len() {
                assert(tail =~= stamp.subrange(stamp.len() - e.len(), stamp.len() as int));
            } else {
                let k = e.len() - 1 - stamp.len();
                assert(tail[k] == y[app.len() as int]);
                assert(y[app.len() as int] == '_');
            }
        }
    }
    assert(trim_end_all(y, e) == y);
    lemma_last_underscore(app, stamp);
    assert(y.subrange(0, app.len() as int) =~= app);
    assert(y.subrange(app.len() as int + 1, y.len() as int) =~= stamp);
}

/// The name of the log file of an app launched at `timestamp`, in
/// milliseconds since the Unix epoch: `bevy_brp_mcp_{app}_{timestamp}.log`.
pub open spec fn launch_log_name(app: Seq<char>, timestamp: nat) -> Seq<char> {
    LOG_PREFIX@ + app + seq!['_'] + decimal(timestamp) + LOG_EXTENSION@
}

/// The name of the log file of an app launched at `timestamp`.
pub fn launch_log_filename(app_name: &str, timestamp: u128) -> (r: String)
    ensures
        r@ == launch_log_name(app_name@, timestamp as nat),
{
    let mut name = String::from_str(LOG_PREFIX);
    name.append(app_name);
    push_char(&mut name, '_');
    crate::text::push_decimal_wide(&mut name, timestamp);
    name.append(LOG_EXTENSION);
    name
}

} // verus!
