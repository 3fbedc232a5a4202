//! The log files of launched apps: how they are listed, read, filtered and
//! chosen for deletion, and the replies of the log tools.

use vstd::prelude::*;
use crate::detection::{all_digits, digit_value, digits_value, is_ascii_digit, lemma_digits_value_grows, unsigned_body};
use crate::json::{JsonData, JsonValue, count_data, entries_data, lemma_entries_data, lemma_values_data, values_data};
use crate::logs::{bytes_text, format_bytes};
use crate::text::{chars_of, concat2, concat3, contains_text, decimal, decimal_string, has_substring, push_char, same_text, texts_of};

verus! {

/// What `str::parse::<u128>` gives: an optional `+`, then one or more ASCII
/// digits whose value fits in 128 bits.
pub open spec fn parse_u128_spec(s: Seq<char>) -> Option<nat> {
    let body = unsigned_body(s);
    if body.len() > 0 && all_digits(body) && digits_value(body) <= u128::MAX {
        Some(digits_value(body))
    } else {
        None
    }
}

/// The timestamp a log file name holds, `0` where it is no number.
pub open spec fn timestamp_value(s: Seq<char>) -> nat {
    match parse_u128_spec(s) {
        Some(n) => n,
        None => 0,
    }
}

/// The digit character of a digit stands for that digit.
proof fn lemma_digit_char_value(d: nat)
    requires
        d < 10,
    ensures
        is_ascii_digit(crate::text::digit_char(d)),
        digit_value(crate::text::digit_char(d)) == d,
{
    assert(d == 0 || d == 1 || d == 2 || d == 3 || d == 4 || d == 5 || d == 6 || d == 7 || d == 8 || d == 9);
}

/// The decimal text of a number is a nonempty run of digits that spells it.
proof fn lemma_decimal_spells(n: nat)
    ensures
        decimal(n).len() > 0,
        all_digits(decimal(n)),
        digits_value(decimal(n)) == n,
    decreases n,
{
    lemma_digit_char_value(n % 10);
    if n >= 10 {
        lemma_decimal_spells(n / 10);
        let d = decimal(n);
        assert(d.drop_last() =~= decimal(n / 10));
        assert(d.last() == crate::text::digit_char(n % 10));
        assert(digits_value(d) == digits_value(decimal(n / 10)) * 10 + digit_value(d.last()));
        assert(n == (n / 10) * 10 + n % 10);
        assert forall|i: int| 0 <= i < d.len() implies is_ascii_digit(#[trigger] d[i]) by {
            if i < d.len() - 1 {
                assert(d[i] == decimal(n / 10)[i]);
            }
        }
    } else {
        assert(decimal(n).drop_last() =~= Seq::<char>::empty());
        assert(digits_value(decimal(n)) == digits_value(Seq::<char>::empty()) * 10 + digit_value(decimal(n).last()));
    }
}

/// A launched app's log file is found among the log files, under the app's
/// name and with the launch time as its timestamp, where what follows the
/// prefix does not itself begin with the prefix.
pub proof fn lemma_launch_log_listed(app: Seq<char>, timestamp: u128)
    requires
        !crate::logs::starts_with(app + seq!['_'] + decimal(timestamp as nat) + crate::logs::LOG_EXTENSION@,
            crate::logs::LOG_PREFIX@),
    ensures
        crate::logs::log_name_parts(crate::logs::launch_log_name(app, timestamp as nat))
            == Some((app, decimal(timestamp as nat))),
        timestamp_value(decimal(timestamp as nat)) == timestamp,
{
    let t = decimal(timestamp as nat);
    lemma_decimal_spells(timestamp as nat);
    assert forall|i: int| 0 <= i < t.len() implies t[i] != '_' by {
        assert(is_ascii_digit(t[i]));
    }
    assert(!crate::logs::ends_with(t, crate::logs::LOG_EXTENSION@)) by {
        reveal_strlit(".log");
        if crate::logs::ends_with(t, crate::logs::LOG_EXTENSION@) {
            assert(t.subrange(t.len() - 4, t.len() as int)[3] == t.last());
            assert(is_ascii_digit(t[t.len() - 1]));
        }
    }
    crate::logs::lemma_log_filename_roundtrip(app, t);
    assert(is_ascii_digit(t[0]));
    assert(unsigned_body(t) == t);
}

/// Parses a decimal `u128` as `str::parse::<u128>` does.
pub fn parse_u128(s: &str) -> (r: Option<u128>)
    ensures
        match r {
            Some(n) => parse_u128_spec(s@) == Some(n as nat),
            None => parse_u128_spec(s@) is None,
        },
{
    let cs = chars_of(s);
    let ghost body = unsigned_body(s@);
    let start: usize = if cs.len() > 0 && cs[0] == '+' { 1 } else { 0 };
    assert(body =~= cs@.subrange(start as int, cs@.len() as int));
    if start >= cs.len() {
        return None;
    }
    let mut value: u128 = 0;
    let mut i: usize = start;
    while i < cs.len()
        invariant
            cs@ == s@,
            body == unsigned_body(s@),
            start <= i <= cs.len(),
            start < cs.len(),
            body =~= cs@.subrange(start as int, cs@.len() as int),
            forall|j: int| 0 <= j < i - start ==> is_ascii_digit(#[trigger] body[j]),
            value as nat == digits_value(body.subrange(0, i - start)),
        decreases cs.len() - i,
    {
        let c = cs[i];
        if !('0' <= c && c <= '9') {
            assert(body[i - start] == c);
            assert(!is_ascii_digit(body[i - start]));
            assert(!all_digits(body));
            return None;
        }
        let d: u128 = ((c as u32) - ('0' as u32)) as u128;
        assert(body.subrange(0, i + 1 - start).drop_last() =~= body.subrange(0, i - start));
        assert(body[i - start] == c);
        assert(digit_value(c) == d);
        if value > (u128::MAX - d) / 10 {
            proof {
                assert(value * 10 + d > u128::MAX) by (nonlinear_arith)
                    requires value > (u128::MAX - d) / 10, d <= 9;
                lemma_digits_value_grows(body, i + 1 - start);
            }
            return None;
        }
        value = value * 10 + d;
        i += 1;
    }
    assert(body.subrange(0, body.len() as int) =~= body);
    assert(all_digits(body));
    Some(value)
}

/// The timestamp of a log file, `0` where its name holds no number.
pub fn timestamp_of(s: &str) -> (r: u128)
    ensures
        r as nat == timestamp_value(s@),
{
    match parse_u128(s) {
        Some(n) => n,
        None => 0,
    }
}

/// A log file of a launched app.
pub struct LogFileEntry {
    pub filename: String,
    pub app_name: String,
    pub timestamp: String,
    /// The full path of the file.
    pub path: String,
    /// The size of the file in bytes.
    pub size_bytes: u64,
    /// When the file was last changed, where the file system tells: whole
    /// seconds since the Unix epoch (negative before it) and nanoseconds.
    pub modified: Option<(i64, u32)>,
}

/// Whether a log file is of the app a filter names; an empty filter takes
/// every file.
pub open spec fn app_selected(entry: LogFileEntry, filter: Seq<char>) -> bool {
    filter.len() == 0 || entry.app_name@ == filter
}

/// Whether a log file is of the app a filter names.
pub fn matches_app_filter(entry: &LogFileEntry, app_name_filter: &str) -> (r: bool)
    ensures
        r == app_selected(*entry, app_name_filter@),
{
    app_name_filter.unicode_len() == 0 || same_text(entry.app_name.as_str(), app_name_filter)
}

/// Whether cleanup deletes a log file: it is of the app the filter names,
/// and, where an age is given, it was not changed after the cutoff that lies
/// that many seconds before `now` (a file whose change time is unknown
/// counts as old).
pub open spec fn cleanup_selected(entry: LogFileEntry, filter: Seq<char>, older_than_seconds: u32, now: (i64, u32)) -> bool {
    app_selected(entry, filter) && (older_than_seconds == 0 || match entry.modified {
        Some(m) => instant_nanos(m) + older_than_seconds * 1_000_000_000 <= instant_nanos(now),
        None => true,
    })
}

/// Cleanup never deletes a log file of another app than the one a
/// non-empty filter names, whatever age is given and whenever the file was
/// changed.
pub proof fn lemma_cleanup_spares_other_apps(entry: LogFileEntry, filter: Seq<char>, older_than_seconds: u32, now: (i64, u32))
    requires
        filter.len() > 0,
        entry.app_name@ != filter,
    ensures
        !cleanup_selected(entry, filter, older_than_seconds, now),
{
}

/// Where an age is given, cleanup never deletes a log file known to have
/// been changed less than that many seconds before now.
pub proof fn lemma_cleanup_spares_recent_files(entry: LogFileEntry, filter: Seq<char>, older_than_seconds: u32, now: (i64, u32))
    requires
        older_than_seconds > 0,
        entry.modified matches Some(m)
            && m.0 * 1_000_000_000 + m.1 + older_than_seconds * 1_000_000_000 > now.0 * 1_000_000_000 + now.1,
    ensures
        !cleanup_selected(entry, filter, older_than_seconds, now),
{
}

/// Without an age, cleanup deletes exactly the log files of the app that
/// the filter names, and every log file where the filter is empty.
pub proof fn lemma_cleanup_without_age(entry: LogFileEntry, filter: Seq<char>, now: (i64, u32))
    ensures
        cleanup_selected(entry, filter, 0, now) == (filter.len() == 0 || entry.app_name@ == filter),
{
}

/// An instant as nanoseconds since the Unix epoch.
pub open spec fn instant_nanos(t: (i64, u32)) -> int {
    t.0 * 1_000_000_000 + t.1
}

/// Whether cleanup deletes a log file.
pub fn cleanup_filter(entry: &LogFileEntry, app_name_filter: &str, older_than_seconds: u32, now: (i64, u32)) -> (r: bool)
    ensures
        r == cleanup_selected(*entry, app_name_filter@, older_than_seconds, now),
        app_name_filter@.len() > 0 && entry.app_name@ != app_name_filter@ ==> !r,
        older_than_seconds > 0 && (entry.modified matches Some(m)
            && m.0 * 1_000_000_000 + m.1 + older_than_seconds * 1_000_000_000 > now.0 * 1_000_000_000 + now.1) ==> !r,
{
    proof {
        if app_name_filter@.len() > 0 && entry.app_name@ != app_name_filter@ {
            lemma_cleanup_spares_other_apps(*entry, app_name_filter@, older_than_seconds, now);
        }
        if older_than_seconds > 0 && (entry.modified matches Some(m)
            && m.0 * 1_000_000_000 + m.1 + older_than_seconds * 1_000_000_000 > now.0 * 1_000_000_000 + now.1) {
            lemma_cleanup_spares_recent_files(*entry, app_name_filter@, older_than_seconds, now);
        }
    }
    if !matches_app_filter(entry, app_name_filter) {
        return false;
    }
    if older_than_seconds > 0 {
        if let Some(m) = entry.modified {
            let modified: i128 = (m.0 as i128) * 1_000_000_000 + (m.1 as i128);
            let current: i128 = (now.0 as i128) * 1_000_000_000 + (now.1 as i128);
            let span: i128 = (older_than_seconds as i128) * 1_000_000_000;
            if modified + span > current {
                return false;
            }
        }
    }
    true
}

/// Whether log files are ordered newest first, by the timestamp in their
/// names.
pub open spec fn newest_first(s: Seq<LogFileEntry>) -> bool {
    forall|i: int, j: int| 0 <= i < j < s.len() ==> timestamp_value((#[trigger] s[i]).timestamp@) >= timestamp_value((#[trigger] s[j]).timestamp@)
}

/// Orders log files newest first, by the timestamp in their names; files of
/// equal timestamps keep their order.
pub fn sort_newest_first(entries: Vec<LogFileEntry>) -> (r: Vec<LogFileEntry>)
    ensures
        r@.to_multiset() =~= entries@.to_multiset(),
        r@.len() == entries@.len(),
        newest_first(r@),
{
    broadcast use vstd::seq_lib::group_to_multiset_ensures;
    let mut rest = entries;
    let mut out: Vec<LogFileEntry> = Vec::new();
    while rest.len() > 0
        invariant
            out@.to_multiset().add(rest@.to_multiset()) =~= entries@.to_multiset(),
            out@.len() + rest@.len() == entries@.len(),
            newest_first(out@),
            forall|i: int, j: int| 0 <= i < out@.len() && 0 <= j < rest@.len()
                ==> timestamp_value((#[trigger] out@[i]).timestamp@) >= timestamp_value((#[trigger] rest@[j]).timestamp@),
        decreases rest@.len(),
    {
        let mut best: usize = 0;
        let mut best_key = timestamp_of(rest[0].timestamp.as_str());
        let mut k: usize = 1;
        while k < rest.len()
            invariant
                1 <= k <= rest@.len(),
                best < rest@.len(),
                best_key as nat == timestamp_value(rest@[best as int].timestamp@),
                forall|j: int| 0 <= j < k ==> timestamp_value((#[trigger] rest@[j]).timestamp@) <= best_key,
            decreases rest@.len() - k,
        {
            let key = timestamp_of(rest[k].timestamp.as_str());
            if key > best_key {
                best = k;
                best_key = key;
            }
            k += 1;
        }
        let ghost before_rest = rest@;
        let ghost before_out = out@;
        let item = rest.remove(best);
        assert(rest@ =~= before_rest.remove(best as int));
        out.push(item);
        assert(out@ =~= before_out.push(before_rest[best as int]));
        proof {
            let x = before_rest[best as int];
            vstd::seq_lib::to_multiset_remove(before_rest, best as int);
            vstd::seq_lib::to_multiset_build(before_out, x);
            vstd::seq_lib::to_multiset_contains(before_rest, x);
            assert(rest@.to_multiset() =~= before_rest.to_multiset().remove(x));
            assert(out@.to_multiset() =~= before_out.to_multiset().insert(x));
            assert(before_rest.to_multiset().contains(x));
            assert(out@.to_multiset().add(rest@.to_multiset()) =~= before_out.to_multiset().add(before_rest.to_multiset()));
        }
        assert forall|i: int, j: int| 0 <= i < out@.len() && 0 <= j < rest@.len()
            implies timestamp_value((#[trigger] out@[i]).timestamp@) >= timestamp_value((#[trigger] rest@[j]).timestamp@) by {
            if j < best {
                assert(rest@[j] == before_rest[j]);
            } else {
                assert(rest@[j] == before_rest[j + 1]);
            }
            if i < before_out.len() {
                assert(out@[i] == before_out[i]);
            }
        }
        assert forall|i: int, j: int| 0 <= i < j < out@.len()
            implies timestamp_value((#[trigger] out@[i]).timestamp@) >= timestamp_value((#[trigger] out@[j]).timestamp@) by {
            if j < before_out.len() {
                assert(out@[i] == before_out[i]);
                assert(out@[j] == before_out[j]);
            } else {
                assert(out@[i] == before_out[i]);
                assert(out@[j] == before_rest[best as int]);
            }
        }
    }
    out
}

/// The text with each character mapped by Unicode's lowercase mapping, as
/// `str::to_lowercase` gives it.
pub uninterp spec fn lowercase(s: Seq<char>) -> Seq<char>;

/// Trusted: wraps `str::to_lowercase`, which std documents as the text with
/// each character mapped by Unicode's lowercase mapping. The contract only
/// names that result.
#[verifier::external_body]
fn to_lower(s: &str) -> (r: String)
    ensures
        r@ == lowercase(s@),
{
    s.to_lowercase()
}

/// Whether a line is kept by a keyword filter: an empty keyword keeps every
/// line; otherwise the line must contain the keyword, case left aside.
pub open spec fn line_kept(line: Seq<char>, keyword: Seq<char>) -> bool {
    keyword.len() == 0 || has_substring(lowercase(line), lowercase(keyword))
}

/// The lines a keyword filter keeps, in order.
pub open spec fn kept_lines(lines: Seq<Seq<char>>, keyword: Seq<char>) -> Seq<Seq<char>>
    decreases lines.len(),
{
    if lines.len() == 0 {
        Seq::empty()
    } else {
        let rest = kept_lines(lines.drop_last(), keyword);
        if line_kept(lines.last(), keyword) { rest.push(lines.last()) } else { rest }
    }
}

/// The keyword filter ignores case on the keyword's side: two non-empty
/// keywords with the same lowercase form keep the same lines, in the same
/// order.
pub proof fn lemma_keyword_case_blind(lines: Seq<Seq<char>>, k1: Seq<char>, k2: Seq<char>)
    requires
        k1.len() > 0,
        k2.len() > 0,
        lowercase(k1) == lowercase(k2),
    ensures
        kept_lines(lines, k1) == kept_lines(lines, k2),
    decreases lines.len(),
{
    if lines.len() > 0 {
        lemma_keyword_case_blind(lines.drop_last(), k1, k2);
    }
}

/// The keyword filter ignores case on the line's side: a line is kept or
/// dropped as any line with the same lowercase form is.
pub proof fn lemma_line_case_blind(l1: Seq<char>, l2: Seq<char>, keyword: Seq<char>)
    requires
        lowercase(l1) == lowercase(l2),
    ensures
        line_kept(l1, keyword) == line_kept(l2, keyword),
{
}

/// The keyword filter keeps lines of the input only, in their order: what
/// it keeps is a part of the lines, and with no keyword it is all of them.
pub proof fn lemma_kept_lines_from_input(lines: Seq<Seq<char>>, keyword: Seq<char>)
    ensures
        kept_lines(lines, keyword).len() <= lines.len(),
        forall|i: int| 0 <= i < kept_lines(lines, keyword).len() ==> lines.contains(#[trigger] kept_lines(lines, keyword)[i]),
        keyword.len() == 0 ==> kept_lines(lines, keyword) == lines,
    decreases lines.len(),
{
    if lines.len() > 0 {
        let rest = lines.drop_last();
        lemma_kept_lines_from_input(rest, keyword);
        let k = kept_lines(lines, keyword);
        assert forall|i: int| 0 <= i < k.len() implies lines.contains(#[trigger] k[i]) by {
            if i < kept_lines(rest, keyword).len() {
                let j = choose|j: int| 0 <= j < rest.len() && rest[j] == kept_lines(rest, keyword)[i];
                assert(lines[j] == rest[j]);
            } else {
                assert(lines[lines.len() - 1] == lines.last());
            }
        }
        if keyword.len() == 0 {
            assert(lines =~= rest.push(lines.last()));
        }
    } else {
        assert(lines =~= Seq::<Seq<char>>::empty());
    }
}

/// The last `tail` lines where `tail` is positive and fewer than all;
/// otherwise all of them.
pub open spec fn tail_of(lines: Seq<Seq<char>>, tail: nat) -> Seq<Seq<char>> {
    if tail > 0 && tail < lines.len() { lines.subrange(lines.len() - tail, lines.len() as int) } else { lines }
}

/// Lines joined with a newline between each two.
pub open spec fn joined_lines(lines: Seq<Seq<char>>) -> Seq<char> {
    crate::text::joined(lines, seq!['\n'])
}

/// Selects the lines of a log to send: those with the keyword, then the
/// last `tail_lines` of them; joined with newlines.
pub fn select_log_lines(lines: &Vec<String>, keyword: &str, tail_lines: usize) -> (r: String)
    ensures
        r@ == joined_lines(tail_of(kept_lines(texts_of(lines@), keyword@), tail_lines as nat)),
{
    let empty = keyword.unicode_len() == 0;
    let key = to_lower(keyword);
    let mut kept: Vec<String> = Vec::new();
    let mut i: usize = 0;
    while i < lines.len()
        invariant
            i <= lines.len(),
            empty == (keyword@.len() == 0),
            key@ == lowercase(keyword@),
            texts_of(kept@) == kept_lines(texts_of(lines@).subrange(0, i as int), keyword@),
        decreases lines.len() - i,
    {
        assert(texts_of(lines@).subrange(0, i + 1).drop_last() =~= texts_of(lines@).subrange(0, i as int));
        assert(texts_of(lines@).subrange(0, i + 1).last() == lines@[i as int]@);
        let keep = empty || contains_text(to_lower(lines[i].as_str()).as_str(), key.as_str());
        if keep {
            let ghost before = kept@;
            kept.push(lines[i].clone());
            assert(texts_of(kept@) =~= texts_of(before).push(lines@[i as int]@));
        }
        i += 1;
    }
    assert(texts_of(lines@).subrange(0, lines.len() as int) =~= texts_of(lines@));
    let n = kept.len();
    let chosen: Vec<String> = if tail_lines > 0 && tail_lines < n {
        let mut t: Vec<String> = Vec::new();
        let mut j: usize = n - tail_lines;
        while j < n
            invariant
                n - tail_lines <= j <= n,
                n == kept@.len(),
                tail_lines < n,
                texts_of(t@) == texts_of(kept@).subrange(n - tail_lines, j as int),
            decreases n - j,
        {
            let ghost before = t@;
            t.push(kept[j].clone());
            assert(texts_of(t@) =~= texts_of(before).push(kept@[j as int]@));
            assert(texts_of(kept@).subrange(n - tail_lines, j + 1) =~= texts_of(kept@).subrange(n - tail_lines, j as int).push(kept@[j as int]@));
            j += 1;
        }
        t
    } else {
        kept
    };
    proof {
        reveal_strlit("\n");
        assert("\n"@ =~= seq!['\n']);
    }
    crate::text::join_texts(&chosen, "\n")
}

/// The number of lines `str::lines` finds in a text: one per newline, and
/// one more where the text does not end with a newline and is not empty.
pub open spec fn line_count(s: Seq<char>) -> nat
    decreases s.len(),
{
    if s.len() == 0 {
        0
    } else if s.last() == '\n' {
        newline_count(s.drop_last()) + 1
    } else {
        newline_count(s) + 1
    }
}

/// The number of newlines in a text.
pub open spec fn newline_count(s: Seq<char>) -> nat
    decreases s.len(),
{
    if s.len() == 0 {
        0
    } else {
        newline_count(s.drop_last()) + if s.last() == '\n' { 1nat } else { 0nat }
    }
}

proof fn lemma_newline_count_bound(s: Seq<char>)
    ensures
        newline_count(s) <= s.len(),
    decreases s.len(),
{
    if s.len() > 0 {
        lemma_newline_count_bound(s.drop_last());
    }
}

/// The number of lines of a text, as `str::lines` counts them.
pub fn count_lines(s: &str) -> (r: usize)
    ensures
        r as nat == line_count(s@),
{
    let cs = chars_of(s);
    let mut n: usize = 0;
    let mut i: usize = 0;
    while i < cs.len()
        invariant
            cs@ == s@,
            i <= cs.len(),
            n as nat == newline_count(cs@.subrange(0, i as int)),
            n <= i,
        decreases cs.len() - i,
    {
        assert(cs@.subrange(0, i + 1).drop_last() =~= cs@.subrange(0, i as int));
        if cs[i] == '\n' {
            n += 1;
        }
        i += 1;
    }
    assert(cs@.subrange(0, cs.len() as int) =~= cs@);
    if cs.len() == 0 {
        0
    } else if cs[cs.len() - 1] == '\n' {
        assert(cs@.drop_last() =~= cs@.subrange(0, cs.len() - 1));
        assert(newline_count(cs@) == newline_count(cs@.drop_last()) + 1);
        n
    } else {
        proof {
            assert(cs@.drop_last() =~= cs@.subrange(0, cs.len() - 1));
            lemma_newline_count_bound(cs@.drop_last());
        }
        n + 1
    }
}

/// Trusted: writes an instant (seconds since the Unix epoch and
/// nanoseconds) as local time, `%Y-%m-%d %H:%M:%S`, with `chrono`'s
/// `DateTime::from_timestamp` and `with_timezone(&Local)`. The text depends
/// on the machine's time zone, so nothing is stated of it; `None` is
/// returned where chrono has no date for the instant.
#[verifier::external_body]
fn local_time_text(secs: i64, nanos: u32) -> (r: Option<String>) {
    chrono::DateTime::from_timestamp(secs, nanos)
        .map(|t| t.with_timezone(&chrono::Local).format("%Y-%m-%d %H:%M:%S").to_string())
}

/// The seconds since the Unix epoch of a change time: `0` where it is
/// unknown or before the epoch.
pub open spec fn modified_secs(m: Option<(i64, u32)>) -> nat {
    match m {
        Some((s, _)) => if s >= 0 { s as nat } else { 0 },
        None => 0,
    }
}

/// The JSON description of a log file, with its change time written as
/// `modified_text`.
pub open spec fn log_entry_data(e: LogFileEntry, modified_text: Seq<char>) -> JsonData {
    JsonData::Object(seq![
        ("app_name"@, JsonData::Str(e.app_name@)),
        ("filename"@, JsonData::Str(e.filename@)),
        ("last_modified"@, JsonData::Str(modified_text)),
        ("last_modified_timestamp"@, count_data(modified_secs(e.modified))),
        ("path"@, JsonData::Str(e.path@)),
        ("size_bytes"@, count_data(e.size_bytes as nat)),
        ("size_human"@, JsonData::Str(bytes_text(e.size_bytes as nat))),
        ("timestamp"@, count_data(timestamp_value(e.timestamp@))),
    ])
}

/// Whether `d` describes a log file, with its change time written in some
/// way.
pub open spec fn describes(d: JsonData, e: LogFileEntry) -> bool {
    exists|t: Seq<char>| d == log_entry_data(e, t)
}

impl LogFileEntry {
    /// The JSON description of this log file, with its change time written
    /// as `modified_text`.
    pub fn json_with_modified(&self, modified_text: String) -> (r: JsonValue)
        ensures
            r.data() == log_entry_data(*self, modified_text@),
    {
        let secs: u64 = match self.modified {
            Some((s, _)) => if s >= 0 { s as u64 } else { 0 },
            None => 0,
        };
        let ghost md = modified_text@;
        let entries = vec![
            (String::from_str("app_name"), JsonValue::String(self.app_name.clone())),
            (String::from_str("filename"), JsonValue::String(self.filename.clone())),
            (String::from_str("last_modified"), JsonValue::String(modified_text)),
            (String::from_str("last_modified_timestamp"), JsonValue::from_count(secs as u128)),
            (String::from_str("path"), JsonValue::String(self.path.clone())),
            (String::from_str("size_bytes"), JsonValue::from_count(self.size_bytes as u128)),
            (String::from_str("size_human"), JsonValue::String(format_bytes(self.size_bytes))),
            (String::from_str("timestamp"), JsonValue::from_count(timestamp_of(self.timestamp.as_str()))),
        ];
        proof {
            lemma_entries_data(entries@);
            assert(entries_data(entries@) =~= seq![
                ("app_name"@, JsonData::Str(self.app_name@)),
                ("filename"@, JsonData::Str(self.filename@)),
                ("last_modified"@, JsonData::Str(md)),
                ("last_modified_timestamp"@, count_data(modified_secs(self.modified))),
                ("path"@, JsonData::Str(self.path@)),
                ("size_bytes"@, count_data(self.size_bytes as nat)),
                ("size_human"@, JsonData::Str(bytes_text(self.size_bytes as nat))),
                ("timestamp"@, count_data(timestamp_value(self.timestamp@))),
            ]);
        }
        JsonValue::Object(entries)
    }

    /// The JSON description of this log file; its change time is written as
    /// local time, `Unknown` where it is not known.
    pub fn to_json(&self) -> (r: JsonValue)
        ensures
            describes(r.data(), *self),
            self.modified is None ==> r.data() == log_entry_data(*self, "Unknown"@),
    {
        let text = match self.modified {
            Some((secs, nanos)) => match local_time_text(secs, nanos) {
                Some(t) => t,
                None => String::from_str("Unknown"),
            },
            None => String::from_str("Unknown"),
        };
        let ghost td = text@;
        let r = self.json_with_modified(text);
        assert(r.data() == log_entry_data(*self, td));
        r
    }
}

/// Whether `d` is the data of the log list reply: the descriptions of the
/// files, each with its change time written in some way, and the directory
/// they are in.
pub open spec fn log_list_reply(d: JsonData, entries: Seq<LogFileEntry>, dir: Seq<char>) -> bool {
    exists|items: Seq<JsonData>| {
        &&& d == JsonData::Object(seq![("logs"@, JsonData::Array(items)), ("temp_directory"@, JsonData::Str(dir))])
        &&& items.len() == entries.len()
        &&& forall|i: int| 0 <= i < items.len() ==> describes(#[trigger] items[i], entries[i])
    }
}

/// The data of the log list reply: the files' descriptions and the
/// directory they are in.
pub fn list_logs_data(entries: &Vec<LogFileEntry>, temp_directory: &str) -> (r: JsonValue)
    ensures
        log_list_reply(r.data(), entries@, temp_directory@),
{
    let mut logs: Vec<JsonValue> = Vec::new();
    let mut i: usize = 0;
    while i < entries.len()
        invariant
            i <= entries.len(),
            logs@.len() == i,
            forall|j: int| 0 <= j < i ==> describes(#[trigger] logs@[j].data(), entries@[j]),
        decreases entries.len() - i,
    {
        logs.push(entries[i].to_json());
        i += 1;
    }
    proof { lemma_values_data(logs@); }
    let logs_value = JsonValue::Array(logs);
    let ghost ld = logs_value.data();
    let out = vec![
        (String::from_str("logs"), logs_value),
        (String::from_str("temp_directory"), JsonValue::String(String::from_str(temp_directory))),
    ];
    proof {
        lemma_entries_data(out@);
        assert(entries_data(out@) =~= seq![("logs"@, ld), ("temp_directory"@, JsonData::Str(temp_directory@))]);
        assert forall|k: int| 0 <= k < entries@.len() implies describes(#[trigger] values_data(logs@)[k], entries@[k]) by {
            assert(values_data(logs@)[k] == logs@[k].data());
        }
    }
    JsonValue::Object(out)
}

/// The message of the log list reply.
pub fn list_logs_message(count: usize) -> (r: String)
    ensures
        r@ == "Found "@ + decimal(count as nat) + " log files"@,
{
    let mut m = String::from_str("Found ");
    m.append(decimal_string(count as u64).as_str());
    m.append(" log files");
    m
}

/// The message of the log read reply.
pub fn read_log_message(filename: &str) -> (r: String)
    ensures
        r@ == "Successfully read log file: "@ + filename@,
{
    concat2("Successfully read log file: ", filename)
}

/// The data of the log read reply.
pub open spec fn read_log_reply(filename: Seq<char>, path: Seq<char>, size: nat, content: Seq<char>,
    filtered: bool, tail_mode: bool) -> JsonData {
    JsonData::Object(seq![
        ("content"@, JsonData::Str(content)),
        ("filename"@, JsonData::Str(filename)),
        ("filtered_by_keyword"@, JsonData::Bool(filtered)),
        ("lines_read"@, count_data(line_count(content))),
        ("path"@, JsonData::Str(path)),
        ("size_bytes"@, count_data(size)),
        ("size_human"@, JsonData::Str(bytes_text(size))),
        ("tail_mode"@, JsonData::Bool(tail_mode)),
    ])
}

/// The data of the log read reply: the file, its size, and the lines read.
pub fn read_log_data(filename: &str, path: &str, size_bytes: u64, content: String, keyword: &str, tail_lines: usize) -> (r: JsonValue)
    ensures
        r.data() == read_log_reply(filename@, path@, size_bytes as nat, content@, keyword@.len() > 0, tail_lines > 0),
{
    let lines = count_lines(content.as_str());
    let ghost cd = content@;
    let entries = vec![
        (String::from_str("content"), JsonValue::String(content)),
        (String::from_str("filename"), JsonValue::String(String::from_str(filename))),
        (String::from_str("filtered_by_keyword"), JsonValue::Bool(keyword.unicode_len() > 0)),
        (String::from_str("lines_read"), JsonValue::from_count(lines as u128)),
        (String::from_str("path"), JsonValue::String(String::from_str(path))),
        (String::from_str("size_bytes"), JsonValue::from_count(size_bytes as u128)),
        (String::from_str("size_human"), JsonValue::String(format_bytes(size_bytes))),
        (String::from_str("tail_mode"), JsonValue::Bool(tail_lines > 0)),
    ];
    proof {
        lemma_entries_data(entries@);
        assert(entries_data(entries@) =~= seq![
            ("content"@, JsonData::Str(cd)),
            ("filename"@, JsonData::Str(filename@)),
            ("filtered_by_keyword"@, JsonData::Bool(keyword@.len() > 0)),
            ("lines_read"@, count_data(line_count(cd))),
            ("path"@, JsonData::Str(path@)),
            ("size_bytes"@, count_data(size_bytes as nat)),
            ("size_human"@, JsonData::Str(bytes_text(size_bytes as nat))),
            ("tail_mode"@, JsonData::Bool(tail_lines > 0)),
        ]);
    }
    JsonValue::Object(entries)
}

/// The data of the cleanup reply.
pub open spec fn cleanup_reply(deleted: Seq<Seq<char>>, filter: Seq<char>, older_than_seconds: u32) -> JsonData {
    JsonData::Object(seq![
        ("app_name_filter"@, if filter.len() == 0 { JsonData::Null } else { JsonData::Str(filter) }),
        ("deleted_count"@, count_data(deleted.len())),
        ("deleted_files"@, crate::handler::text_array(deleted)),
        ("older_than_seconds"@, if older_than_seconds == 0 { JsonData::Null } else { count_data(older_than_seconds as nat) }),
    ])
}

/// The data of the cleanup reply: what was deleted, and the filters used.
pub fn cleanup_data(deleted_files: &Vec<String>, app_name_filter: &str, older_than_seconds: u32) -> (r: JsonValue)
    ensures
        r.data() == cleanup_reply(texts_of(deleted_files@), app_name_filter@, older_than_seconds),
{
    let filter = if app_name_filter.unicode_len() == 0 {
        JsonValue::Null
    } else {
        JsonValue::String(String::from_str(app_name_filter))
    };
    let older = if older_than_seconds == 0 {
        JsonValue::Null
    } else {
        JsonValue::from_count(older_than_seconds as u128)
    };
    let files = crate::handler::texts_json(deleted_files);
    let ghost (fd, od, dd) = (filter.data(), older.data(), files.data());
    let entries = vec![
        (String::from_str("app_name_filter"), filter),
        (String::from_str("deleted_count"), JsonValue::from_count(deleted_files.len() as u128)),
        (String::from_str("deleted_files"), files),
        (String::from_str("older_than_seconds"), older),
    ];
    proof {
        lemma_entries_data(entries@);
        assert(entries_data(entries@) =~= seq![
            ("app_name_filter"@, fd),
            ("deleted_count"@, count_data(texts_of(deleted_files@).len())),
            ("deleted_files"@, dd),
            ("older_than_seconds"@, od),
        ]);
    }
    JsonValue::Object(entries)
}

/// The message of the cleanup reply.
pub fn cleanup_message(count: usize) -> (r: String)
    ensures
        r@ == "Deleted "@ + decimal(count as nat) + " log files"@,
{
    let mut m = String::from_str("Deleted ");
    m.append(decimal_string(count as u64).as_str());
    m.append(" log files");
    m
}

} // verus!
