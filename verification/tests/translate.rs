use naga_js::{
    ShaderSource, TranslateOptions, TranslateOutput, ValidationOptions, naga_version, translate,
    translate_detailed, translate_impl, validate_wgsl, validate_wgsl_detailed,
};

const FRAGMENT: &str = "\n@fragment\nfn main_fs() -> @location(0) vec4<f32> {\n    return vec4<f32>(1.0, 1.0, 1.0, 1.0);\n}\n";

const TWO_ENTRY_POINTS: &str = "@vertex\nfn vs() -> @builtin(position) vec4<f32> {\n    return vec4<f32>(0.0, 0.0, 0.0, 1.0);\n}\n\n@fragment\nfn fs() -> @location(0) vec4<f32> {\n    return vec4<f32>(1.0, 0.0, 0.0, 1.0);\n}\n";

const HALF: &str = "enable f16;\n\n@compute @workgroup_size(1)\nfn main() {\n    var x: f16 = 1.0h;\n    x = x + 1.0h;\n}\n";

const GLSL_FRAGMENT: &str = "#version 450\nlayout(location = 0) out vec4 color;\nvoid main() {\n    color = vec4(COLOR_R, 0.0, 0.0, 1.0);\n}\n";

fn options(from: &str, to: &str, source: ShaderSource) -> TranslateOptions {
    TranslateOptions {
        from: from.to_owned(),
        to: to.to_owned(),
        source,
        stage: None,
        entry_point: None,
        glsl_version: None,
        hlsl_shader_model: None,
        defines: None,
        validation: None,
    }
}

fn text(s: &str) -> ShaderSource {
    ShaderSource::Text(s.to_owned())
}

fn expect_text(out: TranslateOutput) -> String {
    match out {
        TranslateOutput::Text(t) => t,
        TranslateOutput::Binary(_) => panic!("expected text output"),
    }
}

fn expect_binary(out: TranslateOutput) -> Vec<u8> {
    match out {
        TranslateOutput::Binary(b) => b,
        TranslateOutput::Text(_) => panic!("expected binary output"),
    }
}

#[test]
fn wgsl_validates() {
    assert!(validate_wgsl(FRAGMENT.to_owned(), None).is_ok());
    let r = validate_wgsl_detailed(FRAGMENT.to_owned(), None);
    assert!(r.ok);
    assert!(r.error.is_none());
}

#[test]
fn broken_wgsl_is_reported_with_its_location() {
    let r = translate_detailed(options("wgsl", "wgsl", text("fn broken( { nonsense")));
    assert!(!r.ok);
    assert!(r.output.is_none());
    let error = r.error.expect("error");
    assert_eq!(error.kind, "parse");
    assert_eq!(error.labels.len(), 1);
    assert_eq!(
        (error.labels[0].line, error.labels[0].column, error.labels[0].length),
        (1, 12, 1)
    );
    assert_eq!(error.labels[0].message, "expected identifier");
    assert!(error.notes.is_empty());
    let thrown = translate(options("wgsl", "wgsl", text("fn broken( { nonsense"))).unwrap_err();
    assert_eq!(thrown, error.message);
}

#[test]
fn validate_wgsl_throws_parse_errors() {
    let m = validate_wgsl("fn broken( {".to_owned(), None).unwrap_err();
    assert!(m.contains("expected"), "{m}");
    let r = validate_wgsl_detailed("fn broken( {".to_owned(), None);
    assert!(!r.ok);
    let error = r.error.expect("error");
    assert_eq!(error.kind, "parse");
    assert_eq!(m, error.message);
}

#[test]
fn restricted_capabilities_reject_half_floats() {
    assert!(validate_wgsl(HALF.to_owned(), None).is_ok());
    let none = ValidationOptions {
        flags: None,
        capabilities: Some(vec![]),
        subgroup_stages: None,
        subgroup_operations: None,
    };
    let m = validate_wgsl(HALF.to_owned(), Some(none)).unwrap_err();
    let none = ValidationOptions {
        flags: None,
        capabilities: Some(vec![]),
        subgroup_stages: None,
        subgroup_operations: None,
    };
    let error = validate_wgsl_detailed(HALF.to_owned(), Some(none)).error.expect("error");
    assert!(error.kind == "validation" || error.kind == "parse", "{m}");
    assert_eq!(m, error.message);
    let only_f16 = ValidationOptions {
        flags: Some(vec!["all".to_owned()]),
        capabilities: Some(vec!["shader_float16".to_owned()]),
        subgroup_stages: Some(vec!["compute".to_owned()]),
        subgroup_operations: Some(vec!["basic".to_owned(), "vote".to_owned()]),
    };
    assert!(validate_wgsl(HALF.to_owned(), Some(only_f16)).is_ok());
}

#[test]
fn bad_validation_names_fail_as_usage() {
    let bad = ValidationOptions {
        flags: None,
        capabilities: Some(vec!["bogus".to_owned()]),
        subgroup_stages: None,
        subgroup_operations: None,
    };
    let m = validate_wgsl(FRAGMENT.to_owned(), Some(bad)).unwrap_err();
    assert!(m.starts_with("invalid capability 'bogus'; expected one of \"all\", \"immediates\""), "{m}");
}

#[test]
fn broken_source_is_a_parse_error_whatever_the_validation_options() {
    let bad = ValidationOptions {
        flags: Some(vec!["bogus".to_owned()]),
        capabilities: None,
        subgroup_stages: None,
        subgroup_operations: None,
    };
    let r = validate_wgsl_detailed("fn broken( { nonsense".to_owned(), Some(bad));
    assert_eq!(r.error.expect("error").kind, "parse");
    let bad = ValidationOptions {
        flags: Some(vec!["bogus".to_owned()]),
        capabilities: None,
        subgroup_stages: None,
        subgroup_operations: None,
    };
    let mut o = options("spv", "wgsl", ShaderSource::Bytes(vec![1, 2, 3]));
    o.validation = Some(bad);
    assert_eq!(translate_detailed(o).error.expect("error").kind, "parse");
}

#[test]
fn stage_does_not_matter_for_parsing_wgsl() {
    let mut o = options("wgsl", "wgsl", text(FRAGMENT));
    o.stage = Some("compute".to_owned());
    o.defines = Some(vec![("X".to_owned(), "1".to_owned())]);
    let with_stage = expect_text(translate_impl(o).unwrap());
    let without = expect_text(translate_impl(options("wgsl", "wgsl", text(FRAGMENT))).unwrap());
    assert_eq!(with_stage, without);
}

#[test]
fn option_names_are_checked_in_order() {
    let e = translate(options("hlsl", "nope", text(FRAGMENT))).unwrap_err();
    assert_eq!(e, "invalid `from` 'hlsl'; expected one of \"wgsl\", \"glsl\", \"spv\"");
    let e = translate(options("wgsl", "nope", text(FRAGMENT))).unwrap_err();
    assert!(e.starts_with("invalid `to` 'nope'"));
    let mut o = options("wgsl", "glsl", text(FRAGMENT));
    o.stage = Some("geometry".to_owned());
    let e = translate(o).unwrap_err();
    assert_eq!(e, "invalid `stage` 'geometry'; expected one of \"vertex\", \"fragment\", \"compute\"");
    let r = translate_detailed(options("wgsl", "nope", text(FRAGMENT)));
    let error = r.error.expect("error");
    assert_eq!(error.kind, "usage");
    assert!(error.labels.is_empty());
}

#[test]
fn wgsl_round_trips_through_spirv() {
    let spv = expect_binary(translate_impl(options("wgsl", "spv", text(FRAGMENT))).unwrap());
    assert_eq!(spv.len() % 4, 0);
    assert_eq!(&spv[0..4], &[0x03, 0x02, 0x23, 0x07]);
    let back = expect_text(translate_impl(options("spv", "wgsl", ShaderSource::Bytes(spv))).unwrap());
    assert!(back.contains("@fragment"), "{back}");
}

#[test]
fn wgsl_translates_to_every_text_backend() {
    let wgsl = expect_text(translate_impl(options("wgsl", "wgsl", text(FRAGMENT))).unwrap());
    assert!(wgsl.contains("fn main_fs"));
    let hlsl = expect_text(translate_impl(options("wgsl", "hlsl", text(FRAGMENT))).unwrap());
    assert!(hlsl.contains("main_fs"), "{hlsl}");
    let msl = expect_text(translate_impl(options("wgsl", "msl", text(FRAGMENT))).unwrap());
    assert!(msl.contains("main_fs"), "{msl}");
    let dot = expect_text(translate_impl(options("wgsl", "dot", text(FRAGMENT))).unwrap());
    assert!(dot.starts_with("digraph"), "{dot}");
    let glsl = expect_text(translate_impl(options("wgsl", "glsl", text(FRAGMENT))).unwrap());
    assert!(glsl.starts_with("#version 310 es"), "{glsl}");
}

#[test]
fn explicit_default_versions_match_omitted_ones() {
    let default_glsl = expect_text(translate_impl(options("wgsl", "glsl", text(FRAGMENT))).unwrap());
    let mut o = options("wgsl", "glsl", text(FRAGMENT));
    o.glsl_version = Some("310 es".to_owned());
    assert_eq!(expect_text(translate_impl(o).unwrap()), default_glsl);
    let default_hlsl = expect_text(translate_impl(options("wgsl", "hlsl", text(FRAGMENT))).unwrap());
    let mut o = options("wgsl", "hlsl", text(FRAGMENT));
    o.hlsl_shader_model = Some("5_1".to_owned());
    assert_eq!(expect_text(translate_impl(o).unwrap()), default_hlsl);
}

#[test]
fn desktop_glsl_version_is_honoured() {
    let mut o = options("wgsl", "glsl", text(FRAGMENT));
    o.glsl_version = Some("450".to_owned());
    let glsl = expect_text(translate_impl(o).unwrap());
    assert!(glsl.starts_with("#version 450"), "{glsl}");
    let mut o = options("wgsl", "glsl", text(FRAGMENT));
    o.glsl_version = Some("451".to_owned());
    let error = translate_detailed(o).error.expect("error");
    assert_eq!(error.kind, "backend");
}

#[test]
fn several_entry_points_need_a_choice_for_glsl() {
    let e = translate(options("wgsl", "glsl", text(TWO_ENTRY_POINTS))).unwrap_err();
    assert_eq!(e, "shader has multiple entry points; specify `stage` and `entryPoint`");
    let mut o = options("wgsl", "glsl", text(TWO_ENTRY_POINTS));
    o.stage = Some("vertex".to_owned());
    o.entry_point = Some("fs".to_owned());
    let e = translate(o).unwrap_err();
    assert_eq!(e, "entry point 'fs' with stage Vertex not found in module");
    let mut o = options("wgsl", "glsl", text(TWO_ENTRY_POINTS));
    o.stage = Some("vertex".to_owned());
    o.entry_point = Some("vs".to_owned());
    let glsl = expect_text(translate_impl(o).unwrap());
    assert!(glsl.contains("gl_Position"), "{glsl}");
}

#[test]
fn several_entry_points_need_a_choice_for_spirv_but_not_msl() {
    let e = translate(options("wgsl", "spv", text(TWO_ENTRY_POINTS))).unwrap_err();
    assert_eq!(e, "shader has multiple entry points; specify `stage` and `entryPoint`");
    let mut o = options("wgsl", "spv", text(TWO_ENTRY_POINTS));
    o.stage = Some("fragment".to_owned());
    o.entry_point = Some("fs".to_owned());
    let spv = expect_binary(translate_impl(o).unwrap());
    assert!(spv.len() > 20);
    let msl = expect_text(translate_impl(options("wgsl", "msl", text(TWO_ENTRY_POINTS))).unwrap());
    assert!(msl.contains("vs") && msl.contains("fs"), "{msl}");
}

#[test]
fn glsl_input_requires_a_stage() {
    let e = translate(options("glsl", "wgsl", text(GLSL_FRAGMENT))).unwrap_err();
    assert_eq!(e, "GLSL input requires `stage` (vertex, fragment, or compute)");
}

#[test]
fn glsl_input_uses_defines() {
    let mut o = options("glsl", "wgsl", text(GLSL_FRAGMENT));
    o.stage = Some("fragment".to_owned());
    o.defines = Some(vec![("COLOR_R".to_owned(), "0.5".to_owned())]);
    let wgsl = expect_text(translate_impl(o).unwrap());
    assert!(wgsl.contains("0.5"), "{wgsl}");
    let mut o = options("glsl", "wgsl", text(GLSL_FRAGMENT));
    o.stage = Some("fragment".to_owned());
    let r = translate_detailed(o);
    let error = r.error.expect("undefined macro must fail");
    assert_eq!(error.kind, "parse");
    assert!(!error.labels.is_empty());
    assert!(error.labels.iter().all(|l| l.line >= 1 && l.column >= 1));
}

#[test]
fn glsl_defines_that_do_not_lex_are_usage_errors() {
    let mut o = options("glsl", "wgsl", text(GLSL_FRAGMENT));
    o.stage = Some("fragment".to_owned());
    o.defines = Some(vec![("COLOR_R".to_owned(), "# 1".to_owned())]);
    let e = translate(o).unwrap_err();
    assert_eq!(e, "invalid `defines` value for 'COLOR_R': '# 1' is not GLSL preprocessor input");
    let mut o = options("glsl", "wgsl", text(GLSL_FRAGMENT));
    o.stage = Some("fragment".to_owned());
    o.defines = Some(vec![("COLOR_R".to_owned(), "1L".to_owned())]);
    let error = translate_detailed(o).error.expect("error");
    assert_eq!(error.kind, "usage");
    assert_eq!(error.message, "invalid `defines` value for 'COLOR_R': '1L' is not GLSL preprocessor input");
}

#[test]
fn a_later_define_replaces_an_earlier_one() {
    let mut o = options("glsl", "wgsl", text(GLSL_FRAGMENT));
    o.stage = Some("fragment".to_owned());
    o.defines = Some(vec![
        ("COLOR_R".to_owned(), "#".to_owned()),
        ("COLOR_R".to_owned(), "0.25".to_owned()),
    ]);
    let wgsl = expect_text(translate_impl(o).unwrap());
    assert!(wgsl.contains("0.25"), "{wgsl}");
}

#[test]
fn defines_matter_only_for_glsl_input() {
    let mut o = options("wgsl", "wgsl", text(FRAGMENT));
    o.defines = Some(vec![("X".to_owned(), "#".to_owned())]);
    assert!(translate(o).is_ok());
}

#[test]
fn text_input_must_be_utf8() {
    let e = translate(options("wgsl", "wgsl", ShaderSource::Bytes(vec![0x66, 0xff, 0x6e])))
        .unwrap_err();
    assert!(e.starts_with("source is not valid UTF-8: "), "{e}");
    let ok = translate(options("wgsl", "wgsl", ShaderSource::Bytes(FRAGMENT.as_bytes().to_vec())));
    assert!(ok.is_ok());
}

#[test]
fn spirv_input_errors_are_parse_errors() {
    let r = translate_detailed(options("spv", "wgsl", ShaderSource::Bytes(vec![1, 2, 3])));
    let error = r.error.expect("error");
    assert_eq!(error.kind, "parse");
    assert!(error.labels.is_empty());
    let e = translate(options("spv", "wgsl", ShaderSource::Bytes(vec![1, 2, 3]))).unwrap_err();
    assert_eq!(e, error.message);
}

const VERTEX_WITHOUT_POSITION: &str = "@vertex\nfn main() -> @location(0) vec4<f32> {\n    return vec4<f32>(0.0);\n}\n";

#[test]
fn validation_errors_are_reported_as_such() {
    let r = validate_wgsl_detailed(VERTEX_WITHOUT_POSITION.to_owned(), None);
    assert!(!r.ok);
    let error = r.error.expect("error");
    assert_eq!(error.kind, "validation", "{}", error.message);
    assert!(error.message.starts_with("Entry point main at Vertex is invalid"), "{}", error.message);
    assert!(error.labels.iter().all(|l| l.line >= 1 && l.column >= 1));
    let m = validate_wgsl(VERTEX_WITHOUT_POSITION.to_owned(), None).unwrap_err();
    assert_eq!(m, error.message);
    let r = translate_detailed(options("wgsl", "glsl", text(VERTEX_WITHOUT_POSITION)));
    assert_eq!(r.error.expect("error").kind, "validation");
}

#[test]
fn reported_version_is_the_wrapped_naga() {
    assert_eq!(naga_version(), "30.0.1");
}

#[test]
fn translation_accepts_relaxed_validation() {
    let none = || ValidationOptions {
        flags: Some(vec![]),
        capabilities: None,
        subgroup_stages: None,
        subgroup_operations: None,
    };
    let mut o = options("wgsl", "glsl", text(FRAGMENT));
    o.validation = Some(none());
    let relaxed = expect_text(translate_impl(o).unwrap());
    let full = expect_text(translate_impl(options("wgsl", "glsl", text(FRAGMENT))).unwrap());
    assert_eq!(relaxed, full);
    assert!(validate_wgsl(FRAGMENT.to_owned(), Some(none())).is_ok());
    // A module that only the relaxed validation lets through is not handed to
    // a backend: the full validation's failure is reported instead.
    let mut o = options("wgsl", "wgsl", text(VERTEX_WITHOUT_POSITION));
    o.validation = Some(none());
    let r = translate_detailed(o);
    assert_eq!(r.error.expect("error").kind, "validation");
}

#[test]
fn spirv_output_starts_with_the_magic_word_in_little_endian() {
    let spv = expect_binary(translate_impl(options("wgsl", "spv", text(FRAGMENT))).unwrap());
    assert!(spv.len() >= 20 && spv.len() % 4 == 0);
    assert_eq!(&spv[..4], &[0x03, 0x02, 0x23, 0x07]);
}

#[test]
fn spirv_input_failures_carry_no_labels_or_notes() {
    let r = translate_detailed(options("spv", "wgsl", ShaderSource::Bytes(vec![3, 2, 0x23, 7, 0, 0])));
    let error = r.error.expect("error");
    assert_eq!(error.kind, "parse");
    assert!(error.labels.is_empty() && error.notes.is_empty());
}

#[test]
fn equal_validation_settings_check_alike() {
    let explicit = || ValidationOptions {
        flags: Some(vec!["all".to_owned()]),
        capabilities: Some(vec!["all".to_owned()]),
        subgroup_stages: Some(vec!["all".to_owned()]),
        subgroup_operations: Some(vec!["all".to_owned()]),
    };
    let absent = || ValidationOptions {
        flags: None,
        capabilities: None,
        subgroup_stages: None,
        subgroup_operations: None,
    };
    for source in [FRAGMENT, VERTEX_WITHOUT_POSITION, "fn broken( { nonsense"] {
        let a = validate_wgsl(source.to_owned(), None);
        assert_eq!(a, validate_wgsl(source.to_owned(), Some(explicit())));
        assert_eq!(a, validate_wgsl(source.to_owned(), Some(absent())));
    }
}

#[test]
fn options_that_do_not_apply_are_ignored() {
    let mut o = options("wgsl", "wgsl", text(FRAGMENT));
    o.glsl_version = Some("abc".to_owned());
    o.hlsl_shader_model = Some("9_9".to_owned());
    o.entry_point = Some("nowhere".to_owned());
    let ignored = expect_text(translate_impl(o).unwrap());
    let plain = expect_text(translate_impl(options("wgsl", "wgsl", text(FRAGMENT))).unwrap());
    assert_eq!(ignored, plain);
}

#[test]
fn throwing_and_detailed_apis_agree() {
    let thrown = translate(options("wgsl", "wgsl", text("fn broken( { nonsense"))).unwrap_err();
    let detailed = translate_detailed(options("wgsl", "wgsl", text("fn broken( { nonsense")));
    assert!(!detailed.ok && detailed.output.is_none());
    let error = detailed.error.expect("error");
    assert_eq!(thrown, error.message);
    let ok = translate_detailed(options("wgsl", "wgsl", text(FRAGMENT)));
    assert!(ok.ok && ok.error.is_none());
    let text_out = match ok.output.expect("output") {
        TranslateOutput::Text(t) => t,
        TranslateOutput::Binary(_) => panic!("expected text"),
    };
    assert_eq!(text_out, expect_text(translate(options("wgsl", "wgsl", text(FRAGMENT))).unwrap()));
}
