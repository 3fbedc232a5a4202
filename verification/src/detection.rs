//! Recognising the error messages of the Bevy Remote Protocol that say a
//! component or resource value was written in the wrong shape.

use vstd::prelude::*;
use crate::text::{chars_of, concat2, concat3, concat4, concat5, find_chars_from, find_from, joined, join_texts, same_text, string_of, sub_chars, texts_of};
use crate::json::{JsonData, JsonValue, entries_data, field_of, lemma_values_data, lookup, values_data};
use crate::json_text::utf8_len;

verus! {

/// An error reply of the Bevy Remote Protocol.
pub struct BrpError {
    pub code: i32,
    pub message: String,
    pub data: Option<crate::json::JsonValue>,
}

/// Known error patterns that can be deterministically handled.
pub enum ErrorPattern {
    /// Transform expects a sequence of f32 values.
    TransformSequence { expected_count: usize },
    /// Component expects a specific type.
    ExpectedType { expected_type: String },
    /// Vec3/Quat math types expect array format.
    MathTypeArray { math_type: String },
    /// Enum serialization issue - unknown component type.
    UnknownComponentType { component_type: String },
    /// Tuple struct access error.
    TupleStructAccess { field_path: String },
    /// Error accessing element with X access.
    AccessError { access: String, error_type: String },
    /// Expected X access to access Y, found Z instead.
    TypeMismatch { expected: String, actual: String, access: String },
    /// Variant type mismatch for enums.
    VariantTypeMismatch { expected: String, actual: String, access: String },
    /// Missing field in struct/tuple.
    MissingField { field_name: String, owner_type: String },
    /// Unknown component type from BRP.
    UnknownComponent { component_path: String },
}

/// The mathematical form of an `ErrorPattern`.
pub enum PatternData {
    TransformSequence(nat),
    ExpectedType(Seq<char>),
    MathTypeArray(Seq<char>),
    UnknownComponentType(Seq<char>),
    TupleStructAccess(Seq<char>),
    /// Access kind, then the rest of the message.
    AccessError(Seq<char>, Seq<char>),
    /// Expected, actual, access.
    TypeMismatch(Seq<char>, Seq<char>, Seq<char>),
    /// Expected, actual, access.
    VariantTypeMismatch(Seq<char>, Seq<char>, Seq<char>),
    /// Field name, type name.
    MissingField(Seq<char>, Seq<char>),
    UnknownComponent(Seq<char>),
}

impl ErrorPattern {
    pub open spec fn data(&self) -> PatternData {
        match self {
            ErrorPattern::TransformSequence { expected_count } => PatternData::TransformSequence(*expected_count as nat),
            ErrorPattern::ExpectedType { expected_type } => PatternData::ExpectedType(expected_type@),
            ErrorPattern::MathTypeArray { math_type } => PatternData::MathTypeArray(math_type@),
            ErrorPattern::UnknownComponentType { component_type } => PatternData::UnknownComponentType(component_type@),
            ErrorPattern::TupleStructAccess { field_path } => PatternData::TupleStructAccess(field_path@),
            ErrorPattern::AccessError { access, error_type } => PatternData::AccessError(access@, error_type@),
            ErrorPattern::TypeMismatch { expected, actual, access } => PatternData::TypeMismatch(expected@, actual@, access@),
            ErrorPattern::VariantTypeMismatch { expected, actual, access } => PatternData::VariantTypeMismatch(expected@, actual@, access@),
            ErrorPattern::MissingField { field_name, owner_type } => PatternData::MissingField(field_name@, owner_type@),
            ErrorPattern::UnknownComponent { component_path } => PatternData::UnknownComponent(component_path@),
        }
    }
}

pub open spec fn pattern_data_of(p: Option<ErrorPattern>) -> Option<PatternData> {
    match p {
        Some(q) => Some(q.data()),
        None => None,
    }
}

/// Result of error pattern analysis.
pub struct ErrorAnalysis {
    pub pattern: Option<ErrorPattern>,
}

// The expressions that recognise each kind of message, written after the
// exact wording of Bevy's errors. They are tried in this order.
pub const ACCESS_ERROR_REGEX: &'static str = r"Error accessing element with `([^`]+)` access(?:\s*\(offset \d+\))?: (.+)";
pub const TYPE_MISMATCH_REGEX: &'static str = r"Expected ([a-zA-Z0-9_\[\]]+) access to access a ([a-zA-Z0-9_]+), found a ([a-zA-Z0-9_]+) instead\.";
pub const VARIANT_TYPE_MISMATCH_REGEX: &'static str = r"Expected variant ([a-zA-Z0-9_\[\]]+) access to access a ([a-zA-Z0-9_]+) variant, found a ([a-zA-Z0-9_]+) variant instead\.";
pub const MISSING_FIELD_REGEX: &'static str = r#"The ([a-zA-Z0-9_]+) accessed doesn't have (?:an? )?[`"]([^`"]+)[`"] field"#;
pub const UNKNOWN_COMPONENT_REGEX: &'static str = r"Unknown component type: `([^`]+)`";
pub const TRANSFORM_SEQUENCE_REGEX: &'static str = r"expected a sequence of (\d+) f32 values";
pub const EXPECTED_TYPE_REGEX: &'static str = r"expected `([a-zA-Z_:]+(?::[a-zA-Z_:]+)*)`";
pub const MATH_TYPE_ARRAY_REGEX: &'static str = r"(Vec2|Vec3|Vec4|Quat)\s+(?:expects?|requires?|needs?)\s+array";
pub const TUPLE_STRUCT_PATH_REGEX: &'static str = r#"(?:at path|path)\s+[`"]?([^`"\s]+)[`"]?"#;
pub const UNKNOWN_COMPONENT_TYPE_REGEX: &'static str = r"Unknown component type(?::\s*)?[`']?([^`'\s]+)[`']?";

/// The groups that the regular expression `pattern` captures at its first
/// match in `text` (group 0 being the whole match); `None` where it does
/// not match, or where `pattern` is refused by the regex crate.
pub uninterp spec fn regex_captures(pattern: Seq<char>, text: Seq<char>) -> Option<Seq<Option<Seq<char>>>>;

/// The texts of a vector of captured groups.
pub open spec fn group_texts(v: Seq<Option<String>>) -> Seq<Option<Seq<char>>> {
    Seq::new(v.len(), |i: int| match v[i] {
        Some(s) => Some(s@),
        None => None,
    })
}

/// Runs the regular expression `pattern` on `text`.
///
/// Trusted: compiles `pattern` with `regex::Regex::new` and returns the
/// groups that `Regex::captures` reports for the first match, each group as
/// its text. The contract only names this result (`regex_captures`); what the
/// regex crate matches is not stated.
#[verifier::external_body]
fn captures_of(pattern: &str, text: &str) -> (r: Option<Vec<Option<String>>>)
    ensures
        match r {
            Some(v) => regex_captures(pattern@, text@) == Some(group_texts(v@)),
            None => regex_captures(pattern@, text@) is None,
        },
{
    let re = regex::Regex::new(pattern).ok()?;
    let caps = re.captures(text)?;
    Some(caps.iter().map(|g| g.map(|m| m.as_str().to_string())).collect())
}

/// Group `i` of a capture, if it took part in the match.
pub open spec fn group(c: Seq<Option<Seq<char>>>, i: int) -> Option<Seq<char>> {
    if 0 <= i < c.len() { c[i] } else { None }
}

/// The value of an ASCII decimal digit.
pub open spec fn digit_value(c: char) -> nat {
    ((c as u32) - ('0' as u32)) as nat
}

pub open spec fn is_ascii_digit(c: char) -> bool {
    '0' <= c && c <= '9'
}

/// The number that a sequence of ASCII digits spells.
pub open spec fn digits_value(s: Seq<char>) -> nat
    decreases s.len(),
{
    if s.len() == 0 {
        0
    } else {
        digits_value(s.drop_last()) * 10 + digit_value(s.last())
    }
}

/// What `str::parse::<usize>` gives: an optional `+`, then one or more ASCII
/// digits whose value fits in `usize`.
pub open spec fn parse_usize_spec(s: Seq<char>) -> Option<nat> {
    let body = unsigned_body(s);
    if body.len() > 0 && all_digits(body) && digits_value(body) <= usize::MAX {
        Some(digits_value(body))
    } else {
        None
    }
}

/// The text after an optional leading `+`.
pub open spec fn unsigned_body(s: Seq<char>) -> Seq<char> {
    if s.len() > 0 && s[0] == '+' { s.drop_first() } else { s }
}

/// Whether every character is an ASCII digit.
pub open spec fn all_digits(s: Seq<char>) -> bool {
    forall|i: int| 0 <= i < s.len() ==> is_ascii_digit(#[trigger] s[i])
}

pub proof fn lemma_digits_value_grows(s: Seq<char>, j: int)
    requires
        0 <= j <= s.len(),
    ensures
        digits_value(s.subrange(0, j)) <= digits_value(s),
    decreases s.len() - j,
{
    if j < s.len() {
        lemma_digits_value_grows(s, j + 1);
        assert(s.subrange(0, j + 1).drop_last() =~= s.subrange(0, j));
    } else {
        assert(s.subrange(0, j) =~= s);
    }
}

/// Parses a decimal `usize` as `str::parse::<usize>` does.
pub fn parse_usize(s: &str) -> (r: Option<usize>)
    ensures
        match r {
            Some(n) => parse_usize_spec(s@) == Some(n as nat),
            None => parse_usize_spec(s@) is None,
        },
{
    let cs = chars_of(s);
    let ghost body = unsigned_body(s@);
    let start: usize = if cs.len() > 0 && cs[0] == '+' { 1 } else { 0 };
    assert(body =~= cs@.subrange(start as int, cs@.len() as int));
    if start >= cs.len() {
        return None;
    }
    let mut value: usize = 0;
    let mut i: usize = start;
    while i < cs.len()
        invariant
            cs@ == s@,
            body == unsigned_body(s@),
            start <= i <= cs.len(),
            start < cs.len(),
            body =~= cs@.subrange(start as int, cs@.len() as int),
            forall|j: int| 0 <= j < i - start ==> is_ascii_digit(#[trigger] body[j]),
            value as nat == digits_value(body.subrange(0, i - start)),
        decreases cs.len() - i,
    {
        let c = cs[i];
        if !('0' <= c && c <= '9') {
            assert(body[i - start] == c);
            assert(!is_ascii_digit(body[i - start]));
            assert(!all_digits(body));
            return None;
        }
        let d: usize = ((c as u32) - ('0' as u32)) as usize;
        assert(body.subrange(0, i + 1 - start).drop_last() =~= body.subrange(0, i - start));
        assert(body[i - start] == c);
        assert(digit_value(c) == d);
        if value > (usize::MAX - d) / 10 {
            proof {
                assert(value * 10 + d > usize::MAX) by (nonlinear_arith)
                    requires value > (usize::MAX - d) / 10, d <= 9;
                lemma_digits_value_grows(body, i + 1 - start);
            }
            return None;
        }
        value = value * 10 + d;
        i += 1;
    }
    assert(body.subrange(0, body.len() as int) =~= body);
    assert(all_digits(body));
    Some(value)
}

/// The expression tried at position `k` of the order.
pub open spec fn pattern_regex(k: int) -> Seq<char> {
    if k == 0 { ACCESS_ERROR_REGEX@ }
    else if k == 1 { TYPE_MISMATCH_REGEX@ }
    else if k == 2 { VARIANT_TYPE_MISMATCH_REGEX@ }
    else if k == 3 { MISSING_FIELD_REGEX@ }
    else if k == 4 { UNKNOWN_COMPONENT_REGEX@ }
    else if k == 5 { TRANSFORM_SEQUENCE_REGEX@ }
    else if k == 6 { EXPECTED_TYPE_REGEX@ }
    else if k == 7 { MATH_TYPE_ARRAY_REGEX@ }
    else if k == 8 { TUPLE_STRUCT_PATH_REGEX@ }
    else { UNKNOWN_COMPONENT_TYPE_REGEX@ }
}

fn pattern_regex_exec(k: usize) -> (r: &'static str)
    requires
        k < 10,
    ensures
        r@ == pattern_regex(k as int),
{
    if k == 0 { ACCESS_ERROR_REGEX }
    else if k == 1 { TYPE_MISMATCH_REGEX }
    else if k == 2 { VARIANT_TYPE_MISMATCH_REGEX }
    else if k == 3 { MISSING_FIELD_REGEX }
    else if k == 4 { UNKNOWN_COMPONENT_REGEX }
    else if k == 5 { TRANSFORM_SEQUENCE_REGEX }
    else if k == 6 { EXPECTED_TYPE_REGEX }
    else if k == 7 { MATH_TYPE_ARRAY_REGEX }
    else if k == 8 { TUPLE_STRUCT_PATH_REGEX }
    else { UNKNOWN_COMPONENT_TYPE_REGEX }
}

/// The pattern that the groups `c` captured by expression `k` stand for;
/// `None` where a group the pattern reads did not take part, or where the
/// count of a transform sequence is no `usize`.
pub open spec fn pattern_from_groups(k: int, c: Seq<Option<Seq<char>>>) -> Option<PatternData> {
    if k == 0 {
        match (group(c, 1), group(c, 2)) {
            (Some(a), Some(e)) => Some(PatternData::AccessError(a, e)),
            _ => None,
        }
    } else if k == 1 || k == 2 {
        match (group(c, 1), group(c, 2), group(c, 3)) {
            (Some(access), Some(expected), Some(actual)) => if k == 1 {
                Some(PatternData::TypeMismatch(expected, actual, access))
            } else {
                Some(PatternData::VariantTypeMismatch(expected, actual, access))
            },
            _ => None,
        }
    } else if k == 3 {
        match (group(c, 1), group(c, 2)) {
            (Some(t), Some(f)) => Some(PatternData::MissingField(f, t)),
            _ => None,
        }
    } else {
        match group(c, 1) {
            Some(g) => if k == 4 {
                Some(PatternData::UnknownComponent(g))
            } else if k == 5 {
                match parse_usize_spec(g) {
                    Some(n) => Some(PatternData::TransformSequence(n)),
                    None => None,
                }
            } else if k == 6 {
                Some(PatternData::ExpectedType(g))
            } else if k == 7 {
                Some(PatternData::MathTypeArray(g))
            } else if k == 8 {
                Some(PatternData::TupleStructAccess(g))
            } else {
                Some(PatternData::UnknownComponentType(g))
            },
            None => None,
        }
    }
}

/// The pattern that expression `k` finds in `message`.
pub open spec fn pattern_at(k: int, message: Seq<char>) -> Option<PatternData> {
    match regex_captures(pattern_regex(k), message) {
        Some(c) => pattern_from_groups(k, c),
        None => None,
    }
}

/// The first pattern found by the expressions from position `k` on.
pub open spec fn first_pattern_from(k: int, message: Seq<char>) -> Option<PatternData>
    decreases 10 - k,
{
    if k < 0 || k >= 10 {
        None
    } else {
        match pattern_at(k, message) {
            Some(p) => Some(p),
            None => first_pattern_from(k + 1, message),
        }
    }
}

fn take_group(v: &Vec<Option<String>>, i: usize) -> (r: Option<String>)
    ensures
        match r {
            Some(s) => group(group_texts(v@), i as int) == Some(s@),
            None => group(group_texts(v@), i as int) is None,
        },
{
    if i < v.len() {
        match &v[i] {
            Some(s) => Some(s.clone()),
            None => None,
        }
    } else {
        None
    }
}

/// The pattern that the groups `groups`, captured by the expression at
/// position `k` of the order, stand for.
pub fn pattern_from_captures(k: usize, groups: &Vec<Option<String>>) -> (r: Option<ErrorPattern>)
    requires
        k < 10,
    ensures
        pattern_data_of(r) == pattern_from_groups(k as int, group_texts(groups@)),
{
    if k == 0 {
        match (take_group(groups, 1), take_group(groups, 2)) {
            (Some(access), Some(error_type)) => Some(ErrorPattern::AccessError { access, error_type }),
            _ => None,
        }
    } else if k == 1 || k == 2 {
        match (take_group(groups, 1), take_group(groups, 2), take_group(groups, 3)) {
            (Some(access), Some(expected), Some(actual)) => if k == 1 {
                Some(ErrorPattern::TypeMismatch { expected, actual, access })
            } else {
                Some(ErrorPattern::VariantTypeMismatch { expected, actual, access })
            },
            _ => None,
        }
    } else if k == 3 {
        match (take_group(groups, 1), take_group(groups, 2)) {
            (Some(owner_type), Some(field_name)) => Some(ErrorPattern::MissingField { field_name, owner_type }),
            _ => None,
        }
    } else {
        match take_group(groups, 1) {
            Some(g) => if k == 4 {
                Some(ErrorPattern::UnknownComponent { component_path: g })
            } else if k == 5 {
                match parse_usize(g.as_str()) {
                    Some(n) => Some(ErrorPattern::TransformSequence { expected_count: n }),
                    None => None,
                }
            } else if k == 6 {
                Some(ErrorPattern::ExpectedType { expected_type: g })
            } else if k == 7 {
                Some(ErrorPattern::MathTypeArray { math_type: g })
            } else if k == 8 {
                Some(ErrorPattern::TupleStructAccess { field_path: g })
            } else {
                Some(ErrorPattern::UnknownComponentType { component_type: g })
            },
            None => None,
        }
    }
}

/// Analyzes an error message to identify known patterns: the expressions
/// are tried in order and the first that yields a pattern decides.
pub fn analyze_error_pattern(error: &BrpError) -> (r: ErrorAnalysis)
    ensures
        pattern_data_of(r.pattern) == first_pattern_from(0, error.message@),
{
    let message = error.message.as_str();
    let mut k: usize = 0;
    while k < 10
        invariant
            k <= 10,
            message@ == error.message@,
            first_pattern_from(0, message@) == first_pattern_from(k as int, message@),
        decreases 10 - k,
    {
        let found = match captures_of(pattern_regex_exec(k), message) {
            Some(groups) => pattern_from_captures(k, &groups),
            None => None,
        };
        if found.is_some() {
            return ErrorAnalysis { pattern: found };
        }
        k += 1;
    }
    ErrorAnalysis { pattern: None }
}

/// Whether `c` ends a path inside an error message.
pub open spec fn is_path_end(c: char) -> bool {
    c == ' ' || c == '\'' || c == '"' || c == '\n'
}

/// First position at or after `i` that ends a path, or the length.
pub open spec fn path_end_from(m: Seq<char>, i: int) -> int
    decreases m.len() - i,
{
    if i < 0 || i >= m.len() {
        m.len() as int
    } else if is_path_end(m[i]) {
        i
    } else {
        path_end_from(m, i + 1)
    }
}

proof fn lemma_path_end_from(m: Seq<char>, i: int)
    requires
        0 <= i <= m.len(),
    ensures
        i <= path_end_from(m, i) <= m.len(),
    decreases m.len() - i,
{
    if i < m.len() && !is_path_end(m[i]) {
        lemma_path_end_from(m, i + 1);
    }
}

/// The path that starts at `start` in `m`: the text up to the next space,
/// quote or line end, if it starts with or holds a dot.
pub open spec fn path_at(m: Seq<char>, start: int) -> Option<Seq<char>> {
    let p = m.subrange(start, path_end_from(m, start));
    if (p.len() > 0 && p[0] == '.') || p.contains('.') {
        Some(p)
    } else {
        None
    }
}

/// The path that follows `at path `, or else `path '` or `path "`, in `m`.
pub open spec fn path_in_message(m: Seq<char>) -> Option<Seq<char>> {
    match find_from(m, "at path "@, 0) {
        Some(pos) => path_at(m, pos + "at path "@.len()),
        None => {
            let quoted = match find_from(m, "path '"@, 0) {
                Some(pos) => Some(pos),
                None => find_from(m, "path \""@, 0),
            };
            match quoted {
                Some(pos) => path_at(m, pos + "path '"@.len()),
                None => None,
            }
        },
    }
}

fn path_at_chars(m: &Vec<char>, start: usize) -> (r: Option<String>)
    requires
        start <= m.len(),
    ensures
        match r {
            Some(p) => path_at(m@, start as int) == Some(p@),
            None => path_at(m@, start as int) is None,
        },
{
    let mut end = start;
    while end < m.len() && !(m[end] == ' ' || m[end] == '\'' || m[end] == '"' || m[end] == '\n')
        invariant
            start <= end <= m.len(),
            path_end_from(m@, start as int) == path_end_from(m@, end as int),
        decreases m.len() - end,
    {
        end += 1;
    }
    let path = sub_chars(m.as_slice(), start, end);
    let mut has_dot = false;
    let mut i: usize = 0;
    while i < path.len()
        invariant
            i <= path.len(),
            has_dot == (exists|j: int| 0 <= j < i && path@[j] == '.'),
        decreases path.len() - i,
    {
        if path[i] == '.' {
            has_dot = true;
        }
        i += 1;
    }
    proof {
        if has_dot {
            let j = choose|j: int| 0 <= j < path@.len() && path@[j] == '.';
            assert(path@.contains('.'));
        }
    }
    if has_dot {
        Some(string_of(path.as_slice()))
    } else {
        None
    }
}

/// Whether byte offset `b` of a text falls on a char boundary.
pub open spec fn is_char_boundary(m: Seq<char>, b: nat) -> bool {
    exists|k: int| 0 <= k <= m.len() && utf8_len(#[trigger] m.subrange(0, k)) == b
}

/// The char position at byte offset `b` of a text, where `b` is on a char
/// boundary.
pub open spec fn char_at_byte(m: Seq<char>, b: nat) -> int {
    choose|k: int| 0 <= k <= m.len() && utf8_len(#[trigger] m.subrange(0, k)) == b
}

/// A longer prefix of a text takes more bytes.
proof fn lemma_prefix_bytes_grow(m: Seq<char>, i: int, j: int)
    requires
        0 <= i < j <= m.len(),
    ensures
        utf8_len(m.subrange(0, i)) < utf8_len(m.subrange(0, j)),
    decreases j - i,
{
    assert(m.subrange(0, j).drop_last() =~= m.subrange(0, j - 1));
    if i < j - 1 {
        lemma_prefix_bytes_grow(m, i, j - 1);
    }
}

/// The path that starts at byte offset `start_pos` of `error_message`, when
/// it looks like a path. The offset is on a char boundary, as slicing there
/// requires.
pub fn extract_path_from_position(error_message: &str, start_pos: usize) -> (r: Option<String>)
    requires
        is_char_boundary(error_message@, start_pos as nat),
    ensures
        match r {
            Some(p) => path_at(error_message@, char_at_byte(error_message@, start_pos as nat)) == Some(p@),
            None => path_at(error_message@, char_at_byte(error_message@, start_pos as nat)) is None,
        },
{
    let m = chars_of(error_message);
    let ghost target = char_at_byte(m@, start_pos as nat);
    let mut k: usize = 0;
    let mut total: usize = 0;
    assert(m@.subrange(0, 0) =~= Seq::<char>::empty());
    while total < start_pos
        invariant
            m@ == error_message@,
            0 <= target <= m@.len(),
            utf8_len(m@.subrange(0, target)) == start_pos,
            k <= target,
            total as nat == utf8_len(m@.subrange(0, k as int)),
        decreases target - k,
    {
        assert(k < target);
        assert(k < m.len());
        proof { lemma_prefix_bytes_grow(m@, k as int, k + 1); }
        assert(m@.subrange(0, k + 1).drop_last() =~= m@.subrange(0, k as int));
        let c = m[k];
        let w: usize = if (c as u32) < 0x80 { 1 } else if (c as u32) < 0x800 { 2 } else if (c as u32) < 0x10000 { 3 } else { 4 };
        proof {
            if k + 1 < target {
                lemma_prefix_bytes_grow(m@, k + 1, target);
            }
        }
        total = total + w;
        k = k + 1;
    }
    proof {
        if (k as int) < target {
            lemma_prefix_bytes_grow(m@, k as int, target);
        }
    }
    path_at_chars(&m, k)
}

/// The path an error message names, if any.
pub fn extract_path_from_error_context(error_message: &str) -> (r: Option<String>)
    ensures
        match r {
            Some(p) => path_in_message(error_message@) == Some(p@),
            None => path_in_message(error_message@) is None,
        },
{
    let m = chars_of(error_message);
    let at_path = chars_of("at path ");
    match find_chars_from(m.as_slice(), at_path.as_slice(), 0) {
        Some(pos) => {
            proof { crate::text::lemma_find_from(m@, at_path@, 0); }
            path_at_chars(&m, pos + at_path.len())
        },
        None => {
            let single = chars_of("path '");
            let double = chars_of("path \"");
            let found = match find_chars_from(m.as_slice(), single.as_slice(), 0) {
                Some(pos) => Some(pos),
                None => find_chars_from(m.as_slice(), double.as_slice(), 0),
            };
            proof {
                crate::text::lemma_find_from(m@, single@, 0);
                crate::text::lemma_find_from(m@, double@, 0);
            }
            match found {
                Some(pos) => {
                    assert(single@.len() == double@.len()) by {
                        reveal_strlit("path '");
                        reveal_strlit("path \"");
                    }
                    path_at_chars(&m, pos + single.len())
                },
                None => None,
            }
        },
    }
}

/// The crate of a fully qualified type name: what comes before the first
/// `::`, or the whole name.
pub open spec fn crate_of(t: Seq<char>) -> Seq<char> {
    match find_from(t, "::"@, 0) {
        Some(i) => t.subrange(0, i),
        None => t,
    }
}

/// Extracts the crate name from a fully-qualified type name.
pub fn extract_crate_name(type_path: &str) -> (r: String)
    ensures
        r@ == crate_of(type_path@),
{
    let t = chars_of(type_path);
    let sep = chars_of("::");
    match find_chars_from(t.as_slice(), sep.as_slice(), 0) {
        Some(i) => {
            proof { crate::text::lemma_find_from(t@, sep@, 0); }
            string_of(sub_chars(t.as_slice(), 0, i).as_slice())
        },
        None => string_of(t.as_slice()),
    }
}

/// Result of registry checking for serialization support.
pub struct SerializationCheck {
    pub diagnostic_message: String,
}

/// The texts among a sequence of JSON values, in order.
pub open spec fn string_items(s: Seq<JsonData>) -> Seq<Seq<char>>
    decreases s.len(),
{
    if s.len() == 0 {
        Seq::empty()
    } else {
        let rest = string_items(s.drop_last());
        match s.last() {
            JsonData::Str(t) => rest.push(t),
            _ => rest,
        }
    }
}

/// The reflection traits that a type's schema lists.
pub open spec fn reflect_types_of(schema: JsonData) -> Seq<Seq<char>> {
    match field_of(schema, "reflectTypes"@) {
        Some(JsonData::Array(items)) => string_items(items),
        _ => Seq::empty(),
    }
}

/// The diagnostic for one type's schema.
pub open spec fn schema_message(owner: Seq<char>, schema: JsonData) -> Seq<char> {
    let types = reflect_types_of(schema);
    let ser = types.contains("Serialize"@);
    let de = types.contains("Deserialize"@);
    if !ser || !de {
        let missing = if !ser && !de {
            "Serialize and Deserialize"@
        } else if !ser {
            "Serialize"@
        } else {
            "Deserialize"@
        };
        "Type `"@ + owner + "` cannot be used with BRP because it lacks "@ + missing
            + " trait(s). Available traits: "@ + joined(types, ", "@)
            + ". To fix this, the type definition needs both #[derive(Serialize, Deserialize)] AND #[reflect(Serialize, Deserialize)] attributes."@
    } else {
        "Type `"@ + owner + "` has proper serialization support"@
    }
}

/// The diagnostic for a type the schema does not list.
pub open spec fn not_in_schema_message(owner: Seq<char>) -> Seq<char> {
    "Type `"@ + owner + "` not found in registry schema. This type may not be registered with BRP or may not exist."@
}

/// First position at or after `i` of a schema whose `typePath` is `owner`.
pub open spec fn schema_index_from(items: Seq<JsonData>, owner: Seq<char>, i: int) -> Option<int>
    decreases items.len() - i,
{
    if i < 0 || i >= items.len() {
        None
    } else if field_of(items[i], "typePath"@) == Some(JsonData::Str(owner)) {
        Some(i)
    } else {
        schema_index_from(items, owner, i + 1)
    }
}

/// What a registry schema reply says of `owner`: the diagnostic, or the
/// error text where the reply is neither an array nor an object.
pub open spec fn schema_check(owner: Seq<char>, reply: JsonData) -> Result<Seq<char>, Seq<char>> {
    match reply {
        JsonData::Object(s) => match lookup(s, owner) {
            Some(schema) => Ok(schema_message(owner, schema)),
            None => Ok(not_in_schema_message(owner)),
        },
        JsonData::Array(items) => match schema_index_from(items, owner, 0) {
            Some(i) => Ok(schema_message(owner, items[i])),
            None => Ok(not_in_schema_message(owner)),
        },
        _ => Err("Schema response is neither an array nor an object"@),
    }
}

fn reflect_types(schema: &JsonValue) -> (r: Vec<String>)
    ensures
        texts_of(r@) == reflect_types_of(schema.data()),
{
    let mut out: Vec<String> = Vec::new();
    match schema.get("reflectTypes") {
        Some(JsonValue::Array(items)) => {
            proof { lemma_values_data(items@); }
            let mut i: usize = 0;
            while i < items.len()
                invariant
                    i <= items.len(),
                    values_data(items@).len() == items@.len(),
                    texts_of(out@) == string_items(values_data(items@.subrange(0, i as int))),
                decreases items.len() - i,
            {
                let ghost before = values_data(items@.subrange(0, i as int));
                assert(items@.subrange(0, i + 1).drop_last() =~= items@.subrange(0, i as int));
                let ghost after = values_data(items@.subrange(0, i + 1));
                assert(after == before.push(items@[i as int].data()));
                assert(after.drop_last() =~= before);
                if let JsonValue::String(t) = &items[i] {
                    out.push(t.clone());
                    assert(texts_of(out@) =~= string_items(before).push(t@));
                }
                i += 1;
            }
            assert(items@.subrange(0, items.len() as int) =~= items@);
        },
        _ => {
            assert(texts_of(out@) =~= Seq::<Seq<char>>::empty());
        },
    }
    out
}

fn has_text(items: &Vec<String>, t: &str) -> (r: bool)
    ensures
        r == texts_of(items@).contains(t@),
{
    let mut i: usize = 0;
    while i < items.len()
        invariant
            i <= items.len(),
            forall|j: int| 0 <= j < i ==> items@[j]@ != t@,
        decreases items.len() - i,
    {
        if same_text(items[i].as_str(), t) {
            assert(texts_of(items@)[i as int] == t@);
            return true;
        }
        i += 1;
    }
    proof {
        if texts_of(items@).contains(t@) {
            let j = choose|j: int| 0 <= j < texts_of(items@).len() && texts_of(items@)[j] == t@;
            assert(items@[j]@ == t@);
        }
    }
    false
}

/// The diagnostic for one type's schema: whether it lists both the
/// `Serialize` and `Deserialize` reflection traits.
pub fn analyze_single_type_schema(owner: &str, schema: &JsonValue) -> (r: SerializationCheck)
    ensures
        r.diagnostic_message@ == schema_message(owner@, schema.data()),
{
    let types = reflect_types(schema);
    let ser = has_text(&types, "Serialize");
    let de = has_text(&types, "Deserialize");
    let msg = if !ser || !de {
        let missing = if !ser && !de {
            "Serialize and Deserialize"
        } else if !ser {
            "Serialize"
        } else {
            "Deserialize"
        };
        let listed = join_texts(&types, ", ");
        let head = concat4("Type `", owner, "` cannot be used with BRP because it lacks ", missing);
        let tail = concat3(" trait(s). Available traits: ", listed.as_str(),
            ". To fix this, the type definition needs both #[derive(Serialize, Deserialize)] AND #[reflect(Serialize, Deserialize)] attributes.");
        let m = concat2(head.as_str(), tail.as_str());
        assert(m@ =~= schema_message(owner@, schema.data()));
        m
    } else {
        concat3("Type `", owner, "` has proper serialization support")
    };
    SerializationCheck { diagnostic_message: msg }
}

/// Reads a registry schema reply, in its object form (keyed by type path) or
/// its older array form, for what it says of `owner`.
pub fn analyze_schema_for_type(owner: &str, schema_data: &JsonValue) -> (r: Result<SerializationCheck, String>)
    ensures
        match r {
            Ok(c) => schema_check(owner@, schema_data.data()) == Ok::<Seq<char>, Seq<char>>(c.diagnostic_message@),
            Err(e) => schema_check(owner@, schema_data.data()) == Err::<Seq<char>, Seq<char>>(e@),
        },
{
    let not_found = concat3("Type `", owner,
        "` not found in registry schema. This type may not be registered with BRP or may not exist.");
    match schema_data {
        JsonValue::Object(_) => match schema_data.get(owner) {
            Some(schema) => Ok(analyze_single_type_schema(owner, schema)),
            None => Ok(SerializationCheck { diagnostic_message: not_found }),
        },
        JsonValue::Array(items) => {
            proof { lemma_values_data(items@); }
            let mut i: usize = 0;
            while i < items.len()
                invariant
                    i <= items.len(),
                    *schema_data == JsonValue::Array(*items),
                    values_data(items@).len() == items@.len(),
                    forall|j: int| 0 <= j < items@.len() ==> #[trigger] values_data(items@)[j] == items@[j].data(),
                    schema_index_from(values_data(items@), owner@, 0)
                        == schema_index_from(values_data(items@), owner@, i as int),
                decreases items.len() - i,
            {
                let matches = match items[i].get("typePath") {
                    Some(JsonValue::String(t)) => same_text(t.as_str(), owner),
                    _ => false,
                };
                assert(values_data(items@)[i as int] == items@[i as int].data());
                if matches {
                    return Ok(analyze_single_type_schema(owner, &items[i]));
                }
                i += 1;
            }
            Ok(SerializationCheck { diagnostic_message: not_found })
        },
        _ => Err(crate::text::string_of(chars_of("Schema response is neither an array nor an object").as_slice())),
    }
}

} // verus!
