use bevy_brp_mcp::paths::fix_tuple_struct_path;

#[test]
fn test_fix_tuple_struct_path_linear_rgba() {
    assert_eq!(fix_tuple_struct_path(".LinearRgba.red"), ".0.0");
    assert_eq!(fix_tuple_struct_path(".LinearRgba.r"), ".0.0");
    assert_eq!(fix_tuple_struct_path(".LinearRgba.green"), ".0.1");
    assert_eq!(fix_tuple_struct_path(".LinearRgba.g"), ".0.1");
    assert_eq!(fix_tuple_struct_path(".LinearRgba.blue"), ".0.2");
    assert_eq!(fix_tuple_struct_path(".LinearRgba.b"), ".0.2");
    assert_eq!(fix_tuple_struct_path(".LinearRgba.alpha"), ".0.3");
    assert_eq!(fix_tuple_struct_path(".LinearRgba.a"), ".0.3");
}

#[test]
fn test_fix_tuple_struct_path_other_color_variants() {
    assert_eq!(fix_tuple_struct_path(".Srgba.red"), ".0.0");
    assert_eq!(fix_tuple_struct_path(".Hsla.hue"), ".0.0");
    assert_eq!(fix_tuple_struct_path(".Hsva.saturation"), ".0.1");
    assert_eq!(fix_tuple_struct_path(".Hwba.blackness"), ".0.2");
    assert_eq!(fix_tuple_struct_path(".Laba.a"), ".0.1");
    assert_eq!(fix_tuple_struct_path(".Lcha.chroma"), ".0.1");
    assert_eq!(fix_tuple_struct_path(".Xyza.z"), ".0.2");
}

#[test]
fn test_fix_tuple_struct_path_math_types() {
    assert_eq!(fix_tuple_struct_path(".Vec3.x"), ".0.0");
    assert_eq!(fix_tuple_struct_path(".Vec3.y"), ".0.1");
    assert_eq!(fix_tuple_struct_path(".Vec3.z"), ".0.2");
    assert_eq!(fix_tuple_struct_path(".Quat.w"), ".0.3");
    assert_eq!(fix_tuple_struct_path(".IVec2.x"), ".0.0");
    assert_eq!(fix_tuple_struct_path(".DVec4.w"), ".0.3");
}

#[test]
fn test_fix_tuple_struct_path_simple_access() {
    assert_eq!(fix_tuple_struct_path(".x"), ".0");
    assert_eq!(fix_tuple_struct_path(".y"), ".1");
    assert_eq!(fix_tuple_struct_path(".z"), ".2");
}

#[test]
fn generic_variant_fields_map_to_indices() {
    assert_eq!(fix_tuple_struct_path(".SomeColor.green"), ".0.1");
    assert_eq!(fix_tuple_struct_path(".Foo.w"), ".0.3");
}

#[test]
fn unknown_paths_are_unchanged() {
    assert_eq!(fix_tuple_struct_path(".unknown_path"), ".unknown_path");
    assert_eq!(fix_tuple_struct_path(".lower.red"), ".lower.red");
    assert_eq!(fix_tuple_struct_path(".0.0"), ".0.0");
    assert_eq!(fix_tuple_struct_path(""), "");
}
