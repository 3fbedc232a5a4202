//! Rewriting reflection paths that name the fields of Bevy tuple types.
//!
//! Bevy's color enum variants (`LinearRgba`, `Hsla`, ...) and math vectors
//! (`Vec3`, `Quat`, ...) are reflected as tuple structs, so a path such as
//! `.LinearRgba.red` must be written `.0.0`.

use vstd::prelude::*;
use crate::text::{chars_of, digit_char, find_char_from, index_of_from, is_text, lemma_index_of_from, push_char, push_decimal, string_of, sub_chars};

verus! {

/// Index of an RGBA channel name (`red`/`r` ... `alpha`/`a`).
pub open spec fn rgba_index(f: Seq<char>) -> Option<nat> {
    if f == "red"@ || f == "r"@ { Some(0) }
    else if f == "green"@ || f == "g"@ { Some(1) }
    else if f == "blue"@ || f == "b"@ { Some(2) }
    else if f == "alpha"@ || f == "a"@ { Some(3) }
    else { None }
}

/// Index of a field among four named fields.
pub open spec fn index_among(f: Seq<char>, n0: Seq<char>, n1: Seq<char>, n2: Seq<char>, n3: Seq<char>) -> Option<nat> {
    if f == n0 { Some(0) }
    else if f == n1 { Some(1) }
    else if f == n2 { Some(2) }
    else if f == n3 { Some(3) }
    else { None }
}

/// Number of components of a Bevy math vector or quaternion type, or 0 for
/// other names.
pub open spec fn vector_width(t: Seq<char>) -> nat {
    if t == "Vec2"@ || t == "IVec2"@ || t == "UVec2"@ || t == "DVec2"@ { 2 }
    else if t == "Vec3"@ || t == "Vec3A"@ || t == "IVec3"@ || t == "UVec3"@ || t == "DVec3"@ { 3 }
    else if t == "Vec4"@ || t == "IVec4"@ || t == "UVec4"@ || t == "DVec4"@ || t == "Quat"@ || t == "DQuat"@ { 4 }
    else { 0 }
}

/// Index of a vector component name (`x`, `y`, `z`, `w`).
pub open spec fn xyzw_index(f: Seq<char>) -> Option<nat> {
    index_among(f, "x"@, "y"@, "z"@, "w"@)
}

/// Index of field `f` in the tuple form of the known Bevy type `t`.
pub open spec fn known_field_index(t: Seq<char>, f: Seq<char>) -> Option<nat> {
    if t == "LinearRgba"@ || t == "Srgba"@ {
        rgba_index(f)
    } else if t == "Hsla"@ {
        index_among(f, "hue"@, "saturation"@, "lightness"@, "alpha"@)
    } else if t == "Hsva"@ {
        index_among(f, "hue"@, "saturation"@, "value"@, "alpha"@)
    } else if t == "Hwba"@ {
        index_among(f, "hue"@, "whiteness"@, "blackness"@, "alpha"@)
    } else if t == "Laba"@ || t == "Oklaba"@ {
        index_among(f, "lightness"@, "a"@, "b"@, "alpha"@)
    } else if t == "Lcha"@ || t == "Oklcha"@ {
        index_among(f, "lightness"@, "chroma"@, "hue"@, "alpha"@)
    } else if t == "Xyza"@ {
        index_among(f, "x"@, "y"@, "z"@, "alpha"@)
    } else {
        match xyzw_index(f) {
            Some(i) => if i < vector_width(t) { Some(i) } else { None },
            None => None,
        }
    }
}

/// Index of a commonly named field when the variant is not a known type.
pub open spec fn generic_field_index(f: Seq<char>) -> Option<nat> {
    match index_among(f, "red"@, "green"@, "blue"@, "alpha"@) {
        Some(i) => Some(i),
        None => xyzw_index(f),
    }
}

/// Splits `.Type.field` into its two non-empty segments.
pub open spec fn split_type_field(p: Seq<char>) -> Option<(Seq<char>, Seq<char>)> {
    if p.len() >= 4 && p[0] == '.' {
        match index_of_from(p, '.', 1) {
            Some(k) => if k > 1 && k + 1 < p.len() && index_of_from(p, '.', k + 1) is None {
                Some((p.subrange(1, k), p.subrange(k + 1, p.len() as int)))
            } else {
                None
            },
            None => None,
        }
    } else {
        None
    }
}

/// The tuple path `.0.i` for a field of the first tuple element.
pub open spec fn nested_index_path(i: nat) -> Seq<char> {
    seq!['.', '0', '.', digit_char(i)]
}

/// Whether `c` is an ASCII capital letter.
pub open spec fn is_ascii_upper(c: char) -> bool {
    'A' <= c && c <= 'Z'
}

/// The tuple path for a `.Type.field` access on a known type.
pub open spec fn known_type_path(p: Seq<char>) -> Option<Seq<char>> {
    match split_type_field(p) {
        Some((t, f)) => match known_field_index(t, f) {
            Some(i) => Some(nested_index_path(i)),
            None => None,
        },
        None => None,
    }
}

/// The tuple path for a `.Variant.field` access on a variant that is not a
/// known type, where the variant is capitalised and the field commonly named.
pub open spec fn generic_variant_path(p: Seq<char>) -> Option<Seq<char>> {
    match split_type_field(p) {
        Some((t, f)) => if is_ascii_upper(t[0]) {
            match generic_field_index(f) {
                Some(i) => Some(nested_index_path(i)),
                None => None,
            }
        } else {
            None
        },
        None => None,
    }
}

/// The path with named fields of tuple types replaced by numeric indices.
pub open spec fn fixed_tuple_path(p: Seq<char>) -> Seq<char> {
    match known_type_path(p) {
        Some(q) => q,
        None => if p == ".x"@ {
            seq!['.', '0']
        } else if p == ".y"@ {
            seq!['.', '1']
        } else if p == ".z"@ {
            seq!['.', '2']
        } else {
            match generic_variant_path(p) {
                Some(q) => q,
                None => p,
            }
        },
    }
}

fn is_either(a: &[char], l1: &str, l2: &str) -> (r: bool)
    ensures
        r == (a@ == l1@ || a@ == l2@),
{
    is_text(a, l1) || is_text(a, l2)
}

fn index_among_exec(f: &[char], n0: &str, n1: &str, n2: &str, n3: &str) -> (r: Option<u64>)
    ensures
        r matches Some(i) ==> index_among(f@, n0@, n1@, n2@, n3@) == Some(i as nat),
        r is None ==> index_among(f@, n0@, n1@, n2@, n3@) is None,
{
    if is_text(f, n0) { Some(0) }
    else if is_text(f, n1) { Some(1) }
    else if is_text(f, n2) { Some(2) }
    else if is_text(f, n3) { Some(3) }
    else { None }
}

fn vector_width_exec(t: &[char]) -> (r: u64)
    ensures
        r as nat == vector_width(t@),
{
    if is_either(t, "Vec2", "IVec2") || is_either(t, "UVec2", "DVec2") {
        2
    } else if is_either(t, "Vec3", "Vec3A") || is_either(t, "IVec3", "UVec3") || is_text(t, "DVec3") {
        3
    } else if is_either(t, "Vec4", "IVec4") || is_either(t, "UVec4", "DVec4") || is_either(t, "Quat", "DQuat") {
        4
    } else {
        0
    }
}

fn known_field_index_exec(t: &[char], f: &[char]) -> (r: Option<u64>)
    ensures
        r matches Some(i) ==> known_field_index(t@, f@) == Some(i as nat),
        r is None ==> known_field_index(t@, f@) is None,
{
    if is_either(t, "LinearRgba", "Srgba") {
        if is_either(f, "red", "r") { Some(0) }
        else if is_either(f, "green", "g") { Some(1) }
        else if is_either(f, "blue", "b") { Some(2) }
        else if is_either(f, "alpha", "a") { Some(3) }
        else { None }
    } else if is_text(t, "Hsla") {
        index_among_exec(f, "hue", "saturation", "lightness", "alpha")
    } else if is_text(t, "Hsva") {
        index_among_exec(f, "hue", "saturation", "value", "alpha")
    } else if is_text(t, "Hwba") {
        index_among_exec(f, "hue", "whiteness", "blackness", "alpha")
    } else if is_either(t, "Laba", "Oklaba") {
        index_among_exec(f, "lightness", "a", "b", "alpha")
    } else if is_either(t, "Lcha", "Oklcha") {
        index_among_exec(f, "lightness", "chroma", "hue", "alpha")
    } else if is_text(t, "Xyza") {
        index_among_exec(f, "x", "y", "z", "alpha")
    } else {
        match index_among_exec(f, "x", "y", "z", "w") {
            Some(i) => if i < vector_width_exec(t) { Some(i) } else { None },
            None => None,
        }
    }
}

fn split_type_field_exec(p: &[char]) -> (r: Option<(Vec<char>, Vec<char>)>)
    ensures
        r matches Some((t, f)) ==> split_type_field(p@) == Some((t@, f@)),
        r is None ==> split_type_field(p@) is None,
{
    if p.len() >= 4 && p[0] == '.' {
        match find_char_from(p, '.', 1) {
            Some(k) => {
                proof { lemma_index_of_from(p@, '.', 1); }
                if k > 1 && k + 1 < p.len() {
                    match find_char_from(p, '.', k + 1) {
                        Some(_) => None,
                        None => Some((sub_chars(p, 1, k), sub_chars(p, k + 1, p.len()))),
                    }
                } else {
                    None
                }
            },
            None => None,
        }
    } else {
        None
    }
}

fn nested_index_path_exec(i: u64) -> (r: String)
    requires
        i < 10,
    ensures
        r@ == nested_index_path(i as nat),
{
    let mut s = String::new();
    push_char(&mut s, '.');
    push_char(&mut s, '0');
    push_char(&mut s, '.');
    push_decimal(&mut s, i);
    assert(s@ =~= nested_index_path(i as nat));
    s
}

/// Rewrites a reflection path so that named fields of tuple types become
/// numeric tuple indices: `.LinearRgba.red` becomes `.0.0`, `.Vec3.z`
/// becomes `.0.2`, `.x` becomes `.0`. Other paths come back unchanged.
pub fn fix_tuple_struct_path(path: &str) -> (r: String)
    ensures
        r@ == fixed_tuple_path(path@),
{
    let p = chars_of(path);
    let split = split_type_field_exec(p.as_slice());
    if let Some((t, f)) = &split {
        if let Some(i) = known_field_index_exec(t.as_slice(), f.as_slice()) {
            proof {
                assert(known_field_index(t@, f@) == Some(i as nat));
                assert(i < 4);
            }
            return nested_index_path_exec(i);
        }
    }
    if is_text(p.as_slice(), ".x") {
        let mut s = String::new();
        push_char(&mut s, '.');
        push_char(&mut s, '0');
        assert(s@ =~= seq!['.', '0']);
        return s;
    }
    if is_text(p.as_slice(), ".y") {
        let mut s = String::new();
        push_char(&mut s, '.');
        push_char(&mut s, '1');
        assert(s@ =~= seq!['.', '1']);
        return s;
    }
    if is_text(p.as_slice(), ".z") {
        let mut s = String::new();
        push_char(&mut s, '.');
        push_char(&mut s, '2');
        assert(s@ =~= seq!['.', '2']);
        return s;
    }
    if let Some((t, f)) = &split {
        if t.len() > 0 && 'A' <= t[0] && t[0] <= 'Z' {
            let g = match index_among_exec(f.as_slice(), "red", "green", "blue", "alpha") {
                Some(i) => Some(i),
                None => index_among_exec(f.as_slice(), "x", "y", "z", "w"),
            };
            if let Some(i) = g {
                return nested_index_path_exec(i);
            }
        }
    }
    string_of(p.as_slice())
}

/// The paths that the rewriting gives back.
proof fn lemma_fixed_tuple_path_shape(p: Seq<char>)
    ensures
        fixed_tuple_path(p) == p
            || (exists|i: nat| i < 4 && fixed_tuple_path(p) == #[trigger] nested_index_path(i))
            || fixed_tuple_path(p) == seq!['.', '0']
            || fixed_tuple_path(p) == seq!['.', '1']
            || fixed_tuple_path(p) == seq!['.', '2'],
{
    match known_type_path(p) {
        Some(q) => {
            let (t, f) = split_type_field(p)->Some_0;
            let i = known_field_index(t, f)->Some_0;
            assert(i < 4);
            assert(fixed_tuple_path(p) == nested_index_path(i));
        },
        None => {
            match generic_variant_path(p) {
                Some(q) => {
                    let (t, f) = split_type_field(p)->Some_0;
                    let i = generic_field_index(f)->Some_0;
                    assert(i < 4);
                },
                None => {},
            }
        },
    }
}

proof fn lemma_short_index_fixed(d: char)
    requires
        '0' <= d <= '9',
    ensures
        fixed_tuple_path(seq!['.', d]) == seq!['.', d],
{
    reveal_strlit(".x");
    reveal_strlit(".y");
    reveal_strlit(".z");
    let q = seq!['.', d];
    assert(split_type_field(q) is None);
    assert(q != ".x"@ && q != ".y"@ && q != ".z"@) by {
        assert(".x"@[1] == 'x');
        assert(".y"@[1] == 'y');
        assert(".z"@[1] == 'z');
    }
}

proof fn lemma_nested_index_fixed(i: nat)
    requires
        i < 4,
    ensures
        fixed_tuple_path(nested_index_path(i)) == nested_index_path(i),
{
    reveal_strlit(".x");
    reveal_strlit(".y");
    reveal_strlit(".z");
    reveal_strlit("x");
    reveal_strlit("y");
    reveal_strlit("z");
    reveal_strlit("w");
    reveal_strlit("LinearRgba");
    reveal_strlit("Srgba");
    reveal_strlit("Hsla");
    reveal_strlit("Hsva");
    reveal_strlit("Hwba");
    reveal_strlit("Laba");
    reveal_strlit("Oklaba");
    reveal_strlit("Lcha");
    reveal_strlit("Oklcha");
    reveal_strlit("Xyza");
    let q = nested_index_path(i);
    assert(q[1] == '0');
    assert(q[2] == '.');
    assert(index_of_from(q, '.', 2) == Some(2int));
    assert(index_of_from(q, '.', 1) == Some(2int));
    assert(index_of_from(q, '.', 3) is None) by {
        assert(q[3] != '.');
        assert(index_of_from(q, '.', 4) is None);
    }
    let t = q.subrange(1, 2);
    let f = q.subrange(3, 4);
    assert(t =~= seq!['0']);
    assert(f =~= seq![digit_char(i)]);
    assert(split_type_field(q) == Some((t, f)));
    assert('0' <= f[0] <= '3');
    assert(f != "x"@) by { assert("x"@[0] == 'x'); }
    assert(f != "y"@) by { assert("y"@[0] == 'y'); }
    assert(f != "z"@) by { assert("z"@[0] == 'z'); }
    assert(f != "w"@) by { assert("w"@[0] == 'w'); }
    assert(xyzw_index(f) is None);
    assert(t != "LinearRgba"@ && t != "Srgba"@ && t != "Hsla"@ && t != "Hsva"@ && t != "Hwba"@);
    assert(t != "Laba"@ && t != "Oklaba"@ && t != "Lcha"@ && t != "Oklcha"@ && t != "Xyza"@);
    assert(known_type_path(q) is None);
    assert(q.len() == 4);
    assert(q != ".x"@ && q != ".y"@ && q != ".z"@);
    assert(!is_ascii_upper(t[0]));
    assert(generic_variant_path(q) is None);
}

/// Rewriting a path twice changes nothing more: the tuple paths it gives
/// back are left as they are.
pub proof fn lemma_fix_tuple_struct_path_idempotent(p: Seq<char>)
    ensures
        fixed_tuple_path(fixed_tuple_path(p)) == fixed_tuple_path(p),
{
    lemma_fixed_tuple_path_shape(p);
    let q = fixed_tuple_path(p);
    if q != p {
        if q == seq!['.', '0'] {
            lemma_short_index_fixed('0');
        } else if q == seq!['.', '1'] {
            lemma_short_index_fixed('1');
        } else if q == seq!['.', '2'] {
            lemma_short_index_fixed('2');
        } else {
            let i = choose|i: nat| i < 4 && q == #[trigger] nested_index_path(i);
            lemma_nested_index_fixed(i);
        }
    }
}

} // verus!
