//! Splitting a reply that is too large into pages.

use vstd::prelude::*;
use crate::json::{JsonData, JsonValue, entries_data, keys_sorted, lemma_entries_data, lemma_values_data, values_data};
use crate::json_text::{json_text, lemma_utf8_len_concat, push_json_text, push_string_text, utf8_len, utf8_size, entries_text, items_text, string_text};
use crate::text::{decimal, push_char, push_decimal};

verus! {

/// The largest reply, in estimated tokens, sent in one page.
pub const MAX_RESPONSE_TOKENS: usize = 20000;
/// Characters per token, for the estimate.
pub const CHARS_PER_TOKEN: usize = 3;

/// Whether the compact JSON text of a value is small enough for one page.
pub open spec fn fits(d: JsonData) -> bool {
    utf8_len(json_text(d)) / 3 <= 20000
}

/// The page size that the search settles on between `lo` and `hi`: it
/// tries the midpoint (rounded up), keeps it where that many leading items
/// fit, and otherwise searches below it.
pub open spec fn array_page_size(items: Seq<JsonData>, lo: nat, hi: nat) -> nat
    decreases hi - lo,
{
    if lo >= hi {
        lo
    } else {
        let t = (lo + hi + 1) / 2;
        if fits(JsonData::Array(items.subrange(0, t as int))) {
            array_page_size(items, t, hi)
        } else {
            array_page_size(items, lo, (t - 1) as nat)
        }
    }
}

/// The same search over the entries of an object.
pub open spec fn object_page_size(entries: Seq<(Seq<char>, JsonData)>, lo: nat, hi: nat) -> nat
    decreases hi - lo,
{
    if lo >= hi {
        lo
    } else {
        let t = (lo + hi + 1) / 2;
        if fits(JsonData::Object(entries.subrange(0, t as int))) {
            object_page_size(entries, t, hi)
        } else {
            object_page_size(entries, lo, (t - 1) as nat)
        }
    }
}

/// A page of a reply: its data, whether pages follow, its number and the
/// number of pages.
pub struct PaginatedResponse {
    pub data: JsonValue,
    pub has_more: bool,
    pub page: usize,
    pub total_pages: usize,
}

/// The mathematical form of a page.
pub open spec fn page_data(p: PaginatedResponse) -> (JsonData, bool, nat, nat) {
    (p.data.data(), p.has_more, p.page as nat, p.total_pages as nat)
}

impl PaginatedResponse {
    /// The whole reply as the only page.
    pub fn complete(data: JsonValue) -> (r: PaginatedResponse)
        ensures
            page_data(r) == (data.data(), false, 0nat, 1nat),
    {
        PaginatedResponse { data, has_more: false, page: 0, total_pages: 1 }
    }

    /// Page `page` of `total_pages`.
    pub fn paginated(data: JsonValue, page: usize, total_pages: usize) -> (r: PaginatedResponse)
        requires
            total_pages >= 1,
        ensures
            page_data(r) == (data.data(), page + 1 < total_pages, page as nat, total_pages as nat),
    {
        PaginatedResponse { data, has_more: page < total_pages - 1, page, total_pages }
    }
}

/// `Page {page} not found. Total pages: {total}`.
pub open spec fn page_not_found(page: nat, total: nat) -> Seq<char> {
    "Page "@ + decimal(page) + " not found. Total pages: "@ + decimal(total)
}

/// The number of pages of `size` items that `len` items fill.
pub open spec fn pages_for(len: nat, size: nat) -> nat {
    ((len + size - 1) as nat) / size
}

/// Page `page` of `len` items cut `size` at a time: the page's bounds and
/// the number of pages, or the error where there is no such page.
pub open spec fn cut(len: nat, size: nat, page: nat) -> Result<(nat, nat, nat), Seq<char>> {
    let total = pages_for(len, size);
    if page >= total {
        Err(page_not_found(page, total))
    } else {
        let start = page * size;
        let end = if start + size < len { start + size } else { len };
        Ok((start, end, total))
    }
}

/// What the pagination of a reply gives: the reply as one page where it
/// fits; else, for a non-empty array or object, the requested page of the
/// largest leading run of items that fits (at least one item per page);
/// other replies whole.
pub open spec fn paginate_spec(d: JsonData, page: nat) -> Result<(JsonData, bool, nat, nat), Seq<char>> {
    if fits(d) {
        if page == 0 { Ok((d, false, 0, 1)) } else { Err(page_not_found(page, 1)) }
    } else {
        match d {
            JsonData::Array(items) => if items.len() == 0 {
                Ok((d, false, 0, 1))
            } else {
                match cut(items.len(), array_page_size(items, 1, items.len()), page) {
                    Ok((start, end, total)) => Ok((JsonData::Array(items.subrange(start as int, end as int)),
                        page + 1 < total, page, total)),
                    Err(e) => Err(e),
                }
            },
            JsonData::Object(entries) => if entries.len() == 0 {
                Ok((d, false, 0, 1))
            } else {
                match cut(entries.len(), object_page_size(entries, 1, entries.len()), page) {
                    Ok((start, end, total)) => Ok((JsonData::Object(entries.subrange(start as int, end as int)),
                        page + 1 < total, page, total)),
                    Err(e) => Err(e),
                }
            },
            _ => Ok((d, false, 0, 1)),
        }
    }
}

fn fits_text(s: &str) -> (r: bool)
    ensures
        r == (utf8_len(s@) / 3 <= 20000),
{
    utf8_size(s) / 3 <= 20000
}

/// The text of an array of the first `k` items.
fn prefix_items_text(items: &Vec<JsonValue>, k: usize) -> (r: String)
    requires
        k <= items.len(),
    ensures
        r@ == json_text(JsonData::Array(values_data(items@).subrange(0, k as int))),
{
    proof { lemma_values_data(items@); }
    let mut out = String::new();
    push_char(&mut out, '[');
    let ghost start = out@;
    let ghost all = values_data(items@);
    let mut i: usize = 0;
    while i < k
        invariant
            i <= k <= items.len(),
            all == values_data(items@),
            all.len() == items@.len(),
            forall|j: int| 0 <= j < items@.len() ==> #[trigger] all[j] == items@[j].data(),
            out@ == start + items_text(all.subrange(0, i as int)),
        decreases k - i,
    {
        let ghost before = all.subrange(0, i as int);
        let ghost after = all.subrange(0, i + 1);
        assert(after.drop_last() =~= before);
        assert(after.last() == items@[i as int].data());
        if i > 0 {
            push_char(&mut out, ',');
        }
        push_json_text(&mut out, &items[i]);
        assert(out@ =~= start + items_text(after));
        i += 1;
    }
    push_char(&mut out, ']');
    assert(out@ =~= json_text(JsonData::Array(all.subrange(0, k as int))));
    out
}

/// The text of an object of the first `k` entries.
fn prefix_entries_text(entries: &Vec<(String, JsonValue)>, k: usize) -> (r: String)
    requires
        k <= entries.len(),
    ensures
        r@ == json_text(JsonData::Object(entries_data(entries@).subrange(0, k as int))),
{
    proof { lemma_entries_data(entries@); }
    let mut out = String::new();
    push_char(&mut out, '{');
    let ghost start = out@;
    let ghost all = entries_data(entries@);
    let mut i: usize = 0;
    while i < k
        invariant
            i <= k <= entries.len(),
            all == entries_data(entries@),
            all.len() == entries@.len(),
            forall|j: int| 0 <= j < entries@.len() ==> #[trigger] all[j] == (entries@[j].0@, entries@[j].1.data()),
            out@ == start + entries_text(all.subrange(0, i as int)),
        decreases k - i,
    {
        let ghost before = all.subrange(0, i as int);
        let ghost after = all.subrange(0, i + 1);
        assert(after.drop_last() =~= before);
        assert(after.last() == (entries@[i as int].0@, entries@[i as int].1.data()));
        if i > 0 {
            push_char(&mut out, ',');
        }
        push_string_text(&mut out, entries[i].0.as_str());
        push_char(&mut out, ':');
        push_json_text(&mut out, &entries[i].1);
        assert(out@ =~= start + entries_text(after));
        i += 1;
    }
    push_char(&mut out, '}');
    assert(out@ =~= json_text(JsonData::Object(all.subrange(0, k as int))));
    out
}

fn not_found_message(page: usize, total: usize) -> (r: String)
    ensures
        r@ == page_not_found(page as nat, total as nat),
{
    let mut m = String::from_str("Page ");
    push_decimal(&mut m, page as u64);
    m.append(" not found. Total pages: ");
    push_decimal(&mut m, total as u64);
    m
}

/// The page sizes the search settles on lie in range.
proof fn lemma_array_page_size(items: Seq<JsonData>, lo: nat, hi: nat)
    requires
        lo <= hi,
    ensures
        lo <= array_page_size(items, lo, hi) <= hi,
    decreases hi - lo,
{
    if lo < hi {
        let t = (lo + hi + 1) / 2;
        if fits(JsonData::Array(items.subrange(0, t as int))) {
            lemma_array_page_size(items, t, hi);
        } else {
            lemma_array_page_size(items, lo, (t - 1) as nat);
        }
    }
}

proof fn lemma_object_page_size(entries: Seq<(Seq<char>, JsonData)>, lo: nat, hi: nat)
    requires
        lo <= hi,
    ensures
        lo <= object_page_size(entries, lo, hi) <= hi,
    decreases hi - lo,
{
    if lo < hi {
        let t = (lo + hi + 1) / 2;
        if fits(JsonData::Object(entries.subrange(0, t as int))) {
            lemma_object_page_size(entries, t, hi);
        } else {
            lemma_object_page_size(entries, lo, (t - 1) as nat);
        }
    }
}

proof fn lemma_cut(len: nat, size: nat, page: nat)
    requires
        1 <= size <= len,
    ensures
        match cut(len, size, page) {
            Ok((start, end, total)) => start < end <= len && end - start <= size && total >= 1 && page < total,
            Err(_) => true,
        },
{
    let total = pages_for(len, size);
    let m = (len + size - 1) as nat;
    if page < total {
        assert(page * size < len) by (nonlinear_arith)
            requires page < m / size, m == len + size - 1, size >= 1;
    }
    assert(total >= 1) by (nonlinear_arith)
        requires total == m / size, m == len + size - 1, 1 <= size <= len;
}

/// Splits data into pages where its text is too large for one reply.
pub fn paginate_if_needed(data: JsonValue, page: usize) -> (r: Result<PaginatedResponse, String>)
    requires
        data.data() is Object ==> keys_sorted(data.data()->Object_0),
    ensures
        match r {
            Ok(p) => paginate_spec(data.data(), page as nat) == Ok::<(JsonData, bool, nat, nat), Seq<char>>(page_data(p)),
            Err(e) => paginate_spec(data.data(), page as nat) == Err::<(JsonData, bool, nat, nat), Seq<char>>(e@),
        },
{
    let text = crate::json_text::to_json_text(&data);
    if fits_text(text.as_str()) {
        if page == 0 {
            return Ok(PaginatedResponse::complete(data));
        }
        return Err(not_found_message(page, 1));
    }
    match data {
        JsonValue::Array(items) => paginate_array(items, page),
        JsonValue::Object(entries) => paginate_object(entries, page),
        _ => Ok(PaginatedResponse::complete(data)),
    }
}

fn paginate_array(items: Vec<JsonValue>, page: usize) -> (r: Result<PaginatedResponse, String>)
    requires
        !fits(JsonData::Array(values_data(items@))),
    ensures
        match r {
            Ok(p) => paginate_spec(JsonData::Array(values_data(items@)), page as nat)
                == Ok::<(JsonData, bool, nat, nat), Seq<char>>(page_data(p)),
            Err(e) => paginate_spec(JsonData::Array(values_data(items@)), page as nat)
                == Err::<(JsonData, bool, nat, nat), Seq<char>>(e@),
        },
{
    proof { lemma_values_data(items@); }
    let ghost all = values_data(items@);
    if items.len() == 0 {
        return Ok(PaginatedResponse::complete(JsonValue::Array(items)));
    }
    let mut page_size: usize = 1;
    let mut max_size: usize = items.len();
    while page_size < max_size
        invariant
            1 <= page_size <= max_size <= items.len(),
            all == values_data(items@),
            array_page_size(all, 1, items.len() as nat) == array_page_size(all, page_size as nat, max_size as nat),
        decreases max_size - page_size,
    {
        let test_size = page_size + (max_size - page_size + 1) / 2;
        assert(test_size == (page_size + max_size + 1) / 2);
        let chunk_text = prefix_items_text(&items, test_size);
        if fits_text(chunk_text.as_str()) {
            page_size = test_size;
        } else {
            max_size = test_size - 1;
        }
    }
    proof {
        lemma_array_page_size(all, 1, items.len() as nat);
        lemma_cut(items.len() as nat, page_size as nat, page as nat);
    }
    let last = items.len() - 1;
    let total_pages = last / page_size + 1;
    assert(total_pages == pages_for(items.len() as nat, page_size as nat)) by (nonlinear_arith)
        requires page_size >= 1, last + 1 == items.len(), total_pages == last / page_size + 1;
    if page >= total_pages {
        return Err(not_found_message(page, total_pages));
    }
    assert(page * page_size < items.len()) by (nonlinear_arith)
        requires page < total_pages, total_pages == pages_for(items.len() as nat, page_size as nat), page_size >= 1;
    let start = page * page_size;
    let end = if page_size < items.len() - start { start + page_size } else { items.len() };
    let mut chunk: Vec<JsonValue> = Vec::new();
    let mut i: usize = start;
    while i < end
        invariant
            start <= i <= end <= items.len(),
            all == values_data(items@),
            all.len() == items@.len(),
            forall|j: int| 0 <= j < items@.len() ==> #[trigger] all[j] == items@[j].data(),
            values_data(chunk@) == all.subrange(start as int, i as int),
        decreases end - i,
    {
        let c = items[i].deep_copy();
        assert(chunk@.push(c).drop_last() =~= chunk@);
        chunk.push(c);
        assert(values_data(chunk@) =~= all.subrange(start as int, i + 1));
        i += 1;
    }
    Ok(PaginatedResponse::paginated(JsonValue::Array(chunk), page, total_pages))
}

fn paginate_object(entries: Vec<(String, JsonValue)>, page: usize) -> (r: Result<PaginatedResponse, String>)
    requires
        !fits(JsonData::Object(entries_data(entries@))),
        keys_sorted(entries_data(entries@)),
    ensures
        match r {
            Ok(p) => paginate_spec(JsonData::Object(entries_data(entries@)), page as nat)
                == Ok::<(JsonData, bool, nat, nat), Seq<char>>(page_data(p)),
            Err(e) => paginate_spec(JsonData::Object(entries_data(entries@)), page as nat)
                == Err::<(JsonData, bool, nat, nat), Seq<char>>(e@),
        },
{
    proof { lemma_entries_data(entries@); }
    let ghost all = entries_data(entries@);
    if entries.len() == 0 {
        return Ok(PaginatedResponse::complete(JsonValue::Object(entries)));
    }
    let mut page_size: usize = 1;
    let mut max_size: usize = entries.len();
    while page_size < max_size
        invariant
            1 <= page_size <= max_size <= entries.len(),
            all == entries_data(entries@),
            object_page_size(all, 1, entries.len() as nat) == object_page_size(all, page_size as nat, max_size as nat),
        decreases max_size - page_size,
    {
        let test_size = page_size + (max_size - page_size + 1) / 2;
        assert(test_size == (page_size + max_size + 1) / 2);
        let chunk_text = prefix_entries_text(&entries, test_size);
        if fits_text(chunk_text.as_str()) {
            page_size = test_size;
        } else {
            max_size = test_size - 1;
        }
    }
    proof {
        lemma_object_page_size(all, 1, entries.len() as nat);
        lemma_cut(entries.len() as nat, page_size as nat, page as nat);
    }
    let last = entries.len() - 1;
    let total_pages = last / page_size + 1;
    assert(total_pages == pages_for(entries.len() as nat, page_size as nat)) by (nonlinear_arith)
        requires page_size >= 1, last + 1 == entries.len(), total_pages == last / page_size + 1;
    if page >= total_pages {
        return Err(not_found_message(page, total_pages));
    }
    assert(page * page_size < entries.len()) by (nonlinear_arith)
        requires page < total_pages, total_pages == pages_for(entries.len() as nat, page_size as nat), page_size >= 1;
    let start = page * page_size;
    let end = if page_size < entries.len() - start { start + page_size } else { entries.len() };
    let mut chunk: Vec<(String, JsonValue)> = Vec::new();
    let mut i: usize = start;
    while i < end
        invariant
            start <= i <= end <= entries.len(),
            all == entries_data(entries@),
            all.len() == entries@.len(),
            forall|j: int| 0 <= j < entries@.len() ==> #[trigger] all[j] == (entries@[j].0@, entries@[j].1.data()),
            entries_data(chunk@) == all.subrange(start as int, i as int),
        decreases end - i,
    {
        let k = entries[i].0.clone();
        let c = entries[i].1.deep_copy();
        assert(chunk@.push((k, c)).drop_last() =~= chunk@);
        chunk.push((k, c));
        assert(entries_data(chunk@) =~= all.subrange(start as int, i + 1));
        i += 1;
    }
    Ok(PaginatedResponse::paginated(JsonValue::Object(chunk), page, total_pages))
}

/// The text of an array of the first `k + 1` items is no shorter than that
/// of the first `k`.
proof fn lemma_array_prefix_grows(items: Seq<JsonData>, k: int)
    requires
        0 <= k < items.len(),
    ensures
        utf8_len(json_text(JsonData::Array(items.subrange(0, k))))
            <= utf8_len(json_text(JsonData::Array(items.subrange(0, k + 1)))),
{
    let a = items.subrange(0, k);
    let b = items.subrange(0, k + 1);
    assert(b.drop_last() =~= a);
    let x = json_text(b.last());
    if k == 0 {
        assert(items_text(a) =~= Seq::<char>::empty());
        assert(items_text(b) == x);
        lemma_utf8_len_concat(seq!['['], seq![']']);
        lemma_utf8_len_concat(seq!['['], x);
        lemma_utf8_len_concat(seq!['['] + x, seq![']']);
        assert(seq!['['] + items_text(a) + seq![']'] =~= seq!['['] + seq![']']);
    } else {
        assert(items_text(b) == items_text(a) + seq![','] + x);
        let head = seq!['['] + items_text(a);
        lemma_utf8_len_concat(head, seq![']']);
        lemma_utf8_len_concat(head + seq![','] + x, seq![']']);
        lemma_utf8_len_concat(head + seq![','], x);
        lemma_utf8_len_concat(head, seq![',']);
        assert(seq!['['] + items_text(b) + seq![']'] =~= head + seq![','] + x + seq![']']);
    }
}

proof fn lemma_array_prefix_monotone(items: Seq<JsonData>, j: int, k: int)
    requires
        0 <= j <= k <= items.len(),
    ensures
        utf8_len(json_text(JsonData::Array(items.subrange(0, j))))
            <= utf8_len(json_text(JsonData::Array(items.subrange(0, k)))),
    decreases k - j,
{
    if j < k {
        lemma_array_prefix_grows(items, k - 1);
        lemma_array_prefix_monotone(items, j, k - 1);
    }
}

proof fn lemma_object_prefix_grows(entries: Seq<(Seq<char>, JsonData)>, k: int)
    requires
        0 <= k < entries.len(),
    ensures
        utf8_len(json_text(JsonData::Object(entries.subrange(0, k))))
            <= utf8_len(json_text(JsonData::Object(entries.subrange(0, k + 1)))),
{
    let a = entries.subrange(0, k);
    let b = entries.subrange(0, k + 1);
    assert(b.drop_last() =~= a);
    let x = string_text(b.last().0) + seq![':'] + json_text(b.last().1);
    if k == 0 {
        assert(entries_text(a) =~= Seq::<char>::empty());
        assert(entries_text(b) == x);
        lemma_utf8_len_concat(seq!['{'], seq!['}']);
        lemma_utf8_len_concat(seq!['{'], x);
        lemma_utf8_len_concat(seq!['{'] + x, seq!['}']);
        assert(seq!['{'] + entries_text(a) + seq!['}'] =~= seq!['{'] + seq!['}']);
    } else {
        assert(entries_text(b) =~= entries_text(a) + seq![','] + x);
        let head = seq!['{'] + entries_text(a);
        lemma_utf8_len_concat(head, seq!['}']);
        lemma_utf8_len_concat(head + seq![','] + x, seq!['}']);
        lemma_utf8_len_concat(head + seq![','], x);
        lemma_utf8_len_concat(head, seq![',']);
        assert(seq!['{'] + entries_text(b) + seq!['}'] =~= head + seq![','] + x + seq!['}']);
    }
}

proof fn lemma_object_prefix_monotone(entries: Seq<(Seq<char>, JsonData)>, j: int, k: int)
    requires
        0 <= j <= k <= entries.len(),
    ensures
        utf8_len(json_text(JsonData::Object(entries.subrange(0, j))))
            <= utf8_len(json_text(JsonData::Object(entries.subrange(0, k)))),
    decreases k - j,
{
    if j < k {
        lemma_object_prefix_grows(entries, k - 1);
        lemma_object_prefix_monotone(entries, j, k - 1);
    }
}

proof fn lemma_array_search(items: Seq<JsonData>, lo: nat, hi: nat)
    requires
        1 <= lo <= hi <= items.len(),
        lo == 1 || fits(JsonData::Array(items.subrange(0, lo as int))),
        hi == items.len() || !fits(JsonData::Array(items.subrange(0, hi as int + 1))),
    ensures
        lo <= array_page_size(items, lo, hi) <= hi,
        array_page_size(items, lo, hi) == 1
            || fits(JsonData::Array(items.subrange(0, array_page_size(items, lo, hi) as int))),
        array_page_size(items, lo, hi) == items.len()
            || !fits(JsonData::Array(items.subrange(0, array_page_size(items, lo, hi) as int + 1))),
    decreases hi - lo,
{
    if lo < hi {
        let t = (lo + hi + 1) / 2;
        if fits(JsonData::Array(items.subrange(0, t as int))) {
            lemma_array_search(items, t, hi);
        } else {
            lemma_array_search(items, lo, (t - 1) as nat);
        }
    }
}

proof fn lemma_object_search(entries: Seq<(Seq<char>, JsonData)>, lo: nat, hi: nat)
    requires
        1 <= lo <= hi <= entries.len(),
        lo == 1 || fits(JsonData::Object(entries.subrange(0, lo as int))),
        hi == entries.len() || !fits(JsonData::Object(entries.subrange(0, hi as int + 1))),
    ensures
        lo <= object_page_size(entries, lo, hi) <= hi,
        object_page_size(entries, lo, hi) == 1
            || fits(JsonData::Object(entries.subrange(0, object_page_size(entries, lo, hi) as int))),
        object_page_size(entries, lo, hi) == entries.len()
            || !fits(JsonData::Object(entries.subrange(0, object_page_size(entries, lo, hi) as int + 1))),
    decreases hi - lo,
{
    if lo < hi {
        let t = (lo + hi + 1) / 2;
        if fits(JsonData::Object(entries.subrange(0, t as int))) {
            lemma_object_search(entries, t, hi);
        } else {
            lemma_object_search(entries, lo, (t - 1) as nat);
        }
    }
}

/// The page size of a large array is the largest number of leading items
/// whose text fits in one page, and one item where not even that fits.
pub proof fn lemma_array_page_size_largest(items: Seq<JsonData>)
    requires
        items.len() > 0,
    ensures
        1 <= array_page_size(items, 1, items.len()) <= items.len(),
        array_page_size(items, 1, items.len()) == 1
            || fits(JsonData::Array(items.subrange(0, array_page_size(items, 1, items.len()) as int))),
        forall|k: int| array_page_size(items, 1, items.len()) < k <= items.len()
            ==> !#[trigger] fits(JsonData::Array(items.subrange(0, k))),
{
    lemma_array_search(items, 1, items.len());
    let ps = array_page_size(items, 1, items.len());
    assert forall|k: int| ps < k <= items.len() implies !#[trigger] fits(JsonData::Array(items.subrange(0, k))) by {
        lemma_array_prefix_monotone(items, ps as int + 1, k);
    }
}

/// The page size of a large object is the largest number of leading
/// entries whose text fits in one page, and one entry where not even that
/// fits.
pub proof fn lemma_object_page_size_largest(entries: Seq<(Seq<char>, JsonData)>)
    requires
        entries.len() > 0,
    ensures
        1 <= object_page_size(entries, 1, entries.len()) <= entries.len(),
        object_page_size(entries, 1, entries.len()) == 1
            || fits(JsonData::Object(entries.subrange(0, object_page_size(entries, 1, entries.len()) as int))),
        forall|k: int| object_page_size(entries, 1, entries.len()) < k <= entries.len()
            ==> !#[trigger] fits(JsonData::Object(entries.subrange(0, k))),
{
    lemma_object_search(entries, 1, entries.len());
    let ps = object_page_size(entries, 1, entries.len());
    assert forall|k: int| ps < k <= entries.len() implies !#[trigger] fits(JsonData::Object(entries.subrange(0, k))) by {
        lemma_object_prefix_monotone(entries, ps as int + 1, k);
    }
}

/// The items of the first `n` pages of `size` items, one page after another.
pub open spec fn first_pages<T>(items: Seq<T>, size: nat, n: nat) -> Seq<T>
    decreases n,
{
    if n == 0 {
        Seq::empty()
    } else {
        let start = ((n - 1) * size) as int;
        let end = if start + size < items.len() { start + size } else { items.len() as int };
        first_pages(items, size, (n - 1) as nat) + items.subrange(start, end)
    }
}

proof fn lemma_first_pages<T>(items: Seq<T>, size: nat, n: nat)
    requires
        size >= 1,
        (n - 1) * size < items.len() || n == 0,
    ensures
        first_pages(items, size, n) == items.subrange(0, if n * size < items.len() { (n * size) as int } else { items.len() as int }),
    decreases n,
{
    if n > 0 {
        assert(((n - 1) as nat) * size <= (n - 1) * size);
        if n >= 2 {
            assert((n - 2) * size < (n - 1) * size) by (nonlinear_arith)
                requires size >= 1, n >= 2;
        }
        lemma_first_pages(items, size, (n - 1) as nat);
        assert(n * size == (n - 1) * size + size) by (nonlinear_arith);
        assert(((n - 1) as nat) * size == (n - 1) * size);
        let start = (n - 1) * size;
        let prev_end = if ((n - 1) as nat) * size < items.len() { (((n - 1) as nat) * size) as int } else { items.len() as int };
        assert(prev_end == start);
        assert(items.subrange(0, start) + items.subrange(start, if start + size < items.len() { start + size } else { items.len() as int })
            =~= items.subrange(0, if n * size < items.len() { (n * size) as int } else { items.len() as int }));
    }
}

/// The pages of a large array, one after another, give back the array: each
/// item sits on exactly one page, in order.
pub proof fn lemma_array_pages_tile(items: Seq<JsonData>)
    requires
        items.len() > 0,
        !fits(JsonData::Array(items)),
    ensures
        ({
            let size = array_page_size(items, 1, items.len());
            let total = pages_for(items.len(), size);
            &&& total >= 1
            &&& first_pages(items, size, total) == items
            &&& forall|p: nat| p < total ==> #[trigger] paginate_spec(JsonData::Array(items), p)
                == Ok::<(JsonData, bool, nat, nat), Seq<char>>((JsonData::Array(items.subrange((p * size) as int,
                    if p * size + size < items.len() { (p * size + size) as int } else { items.len() as int })),
                    p + 1 < total, p, total))
            &&& forall|p: nat| p >= total ==> #[trigger] paginate_spec(JsonData::Array(items), p)
                == Err::<(JsonData, bool, nat, nat), Seq<char>>(page_not_found(p, total))
            &&& forall|p: nat| p < total ==> #[trigger] (p * size) < items.len()
            &&& items.len() >= 2 ==> total >= 2
        }),
{
    let size = array_page_size(items, 1, items.len());
    lemma_array_page_size_largest(items);
    let total = pages_for(items.len(), size);
    let m = (items.len() + size - 1) as nat;
    assert(total >= 1) by (nonlinear_arith)
        requires total == m / size, m == items.len() + size - 1, 1 <= size <= items.len();
    assert((total - 1) * size < items.len()) by (nonlinear_arith)
        requires total == m / size, m == items.len() + size - 1, size >= 1, total >= 1;
    assert(total * size >= items.len()) by (nonlinear_arith)
        requires total == m / size, m == items.len() + size - 1, size >= 1;
    lemma_first_pages(items, size, total);
    assert(items.subrange(0, items.len() as int) =~= items);
    assert forall|p: nat| p < total implies #[trigger] paginate_spec(JsonData::Array(items), p)
        == Ok::<(JsonData, bool, nat, nat), Seq<char>>((JsonData::Array(items.subrange((p * size) as int,
            if p * size + size < items.len() { (p * size + size) as int } else { items.len() as int })),
            p + 1 < total, p, total)) by {
        lemma_cut(items.len(), size, p);
    }    assert forall|p: nat| p < total implies #[trigger] (p * size) < items.len() by {
        assert(p * size <= (total - 1) * size) by (nonlinear_arith)
            requires p < total, size >= 1;
    }
    if items.len() >= 2 {
        assert(size < items.len()) by {
            if size == items.len() {
                assert(items.subrange(0, size as int) =~= items);
            }
        }
        assert(total >= 2) by (nonlinear_arith)
            requires total == m / size, m == items.len() + size - 1, 1 <= size, size < items.len();
    }
}

/// The pages of a large object, one after another, give back the object:
/// each entry sits on exactly one page, in order.
pub proof fn lemma_object_pages_tile(items: Seq<(Seq<char>, JsonData)>)
    requires
        items.len() > 0,
        !fits(JsonData::Object(items)),
    ensures
        ({
            let size = object_page_size(items, 1, items.len());
            let total = pages_for(items.len(), size);
            &&& total >= 1
            &&& first_pages(items, size, total) == items
            &&& forall|p: nat| p < total ==> #[trigger] paginate_spec(JsonData::Object(items), p)
                == Ok::<(JsonData, bool, nat, nat), Seq<char>>((JsonData::Object(items.subrange((p * size) as int,
                    if p * size + size < items.len() { (p * size + size) as int } else { items.len() as int })),
                    p + 1 < total, p, total))
            &&& forall|p: nat| p >= total ==> #[trigger] paginate_spec(JsonData::Object(items), p)
                == Err::<(JsonData, bool, nat, nat), Seq<char>>(page_not_found(p, total))
            &&& forall|p: nat| p < total ==> #[trigger] (p * size) < items.len()
            &&& items.len() >= 2 ==> total >= 2
        }),
{
    let size = object_page_size(items, 1, items.len());
    lemma_object_page_size_largest(items);
    let total = pages_for(items.len(), size);
    let m = (items.len() + size - 1) as nat;
    assert(total >= 1) by (nonlinear_arith)
        requires total == m / size, m == items.len() + size - 1, 1 <= size <= items.len();
    assert((total - 1) * size < items.len()) by (nonlinear_arith)
        requires total == m / size, m == items.len() + size - 1, size >= 1, total >= 1;
    assert(total * size >= items.len()) by (nonlinear_arith)
        requires total == m / size, m == items.len() + size - 1, size >= 1;
    lemma_first_pages(items, size, total);
    assert(items.subrange(0, items.len() as int) =~= items);
    assert forall|p: nat| p < total implies #[trigger] paginate_spec(JsonData::Object(items), p)
        == Ok::<(JsonData, bool, nat, nat), Seq<char>>((JsonData::Object(items.subrange((p * size) as int,
            if p * size + size < items.len() { (p * size + size) as int } else { items.len() as int })),
            p + 1 < total, p, total)) by {
        lemma_cut(items.len(), size, p);
    }    assert forall|p: nat| p < total implies #[trigger] (p * size) < items.len() by {
        assert(p * size <= (total - 1) * size) by (nonlinear_arith)
            requires p < total, size >= 1;
    }
    if items.len() >= 2 {
        assert(size < items.len()) by {
            if size == items.len() {
                assert(items.subrange(0, size as int) =~= items);
            }
        }
        assert(total >= 2) by (nonlinear_arith)
            requires total == m / size, m == items.len() + size - 1, 1 <= size, size < items.len();
    }
}


} // verus!
