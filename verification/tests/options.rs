use naga_js::{
    Diagnostic, DiagnosticKind, EntryPoint, GlslVersion, HlslShaderModel, InputFormat, Label,
    OutputFormat, OutputPlan, PipelineStage, ShaderStage, SpanText, ValidationOptions,
    parse_capabilities, parse_flag_list, parse_glsl_version, parse_hlsl_shader_model,
    parse_input_format, parse_output_format, parse_shader_stage, parse_subgroup_operations,
    parse_subgroup_stages, parse_validation_flags, plan_output, push_label,
    resolve_entry_point, resolve_entry_point_optional, source_location, validator_config,
    with_location, words_to_le_bytes,
};

fn names(list: &[&str]) -> Vec<String> {
    list.iter().map(|s| s.to_string()).collect()
}

fn usage_message(d: Diagnostic) -> String {
    assert_eq!(d.kind, DiagnosticKind::Usage);
    assert_eq!(d.form, "");
    assert!(d.labels.is_empty());
    assert!(d.notes.is_empty());
    d.message
}

#[test]
fn input_formats_parse_by_name() {
    assert_eq!(parse_input_format("wgsl").unwrap(), InputFormat::Wgsl);
    assert_eq!(parse_input_format("glsl").unwrap(), InputFormat::Glsl);
    assert_eq!(parse_input_format("spv").unwrap(), InputFormat::Spv);
    assert_eq!(
        usage_message(parse_input_format("WGSL").unwrap_err()),
        "invalid `from` 'WGSL'; expected one of \"wgsl\", \"glsl\", \"spv\""
    );
}

#[test]
fn output_formats_parse_by_name() {
    assert_eq!(parse_output_format("hlsl").unwrap(), OutputFormat::Hlsl);
    assert_eq!(parse_output_format("msl").unwrap(), OutputFormat::Msl);
    assert_eq!(parse_output_format("dot").unwrap(), OutputFormat::Dot);
    assert_eq!(
        usage_message(parse_output_format("exe").unwrap_err()),
        "invalid `to` 'exe'; expected one of \"wgsl\", \"glsl\", \"hlsl\", \"msl\", \"spv\", \"dot\""
    );
}

#[test]
fn stages_parse_by_name() {
    assert_eq!(parse_shader_stage("fragment").unwrap(), ShaderStage::Fragment);
    assert_eq!(
        usage_message(parse_shader_stage("mesh").unwrap_err()),
        "invalid `stage` 'mesh'; expected one of \"vertex\", \"fragment\", \"compute\""
    );
}

#[test]
fn flag_names_combine_into_bits() {
    assert_eq!(parse_validation_flags(&names(&["expressions", "blocks"])).unwrap(), 0x3);
    assert_eq!(parse_subgroup_stages(&names(&["miss", "vertex"])).unwrap(), 0x101);
    assert_eq!(parse_subgroup_operations(&names(&["quad_fragment_compute"])).unwrap(), 0x80);
    assert_eq!(parse_capabilities(&names(&["shader_int16"])).unwrap(), 1 << 43);
}

#[test]
fn empty_list_selects_nothing() {
    assert_eq!(parse_validation_flags(&[]).unwrap(), 0);
    assert_eq!(parse_capabilities(&[]).unwrap(), 0);
}

#[test]
fn all_wins_over_unknown_names() {
    assert_eq!(parse_subgroup_operations(&names(&["bogus", "all"])).unwrap(), 0xBF);
    assert_eq!(parse_subgroup_stages(&names(&["vertex", "all"])).unwrap(), 0x1FF);
}

#[test]
fn unknown_name_lists_the_valid_ones() {
    let d = parse_subgroup_operations(&names(&["vote", "nope", "also_bad"])).unwrap_err();
    assert_eq!(
        usage_message(d),
        "invalid subgroup operation 'nope'; expected one of \"all\", \"basic\", \"vote\", \"arithmetic\", \"ballot\", \"shuffle\", \"shuffle_relative\", \"quad_fragment_compute\""
    );
    let d = parse_validation_flags(&names(&["Blocks"])).unwrap_err();
    assert_eq!(
        usage_message(d),
        "invalid flag 'Blocks'; expected one of \"all\", \"expressions\", \"blocks\", \"control_flow_uniformity\", \"struct_layouts\", \"constants\", \"bindings\""
    );
}

#[test]
fn flag_list_uses_the_first_matching_entry() {
    let list = names(&["b"]);
    let r = parse_flag_list(&list, 0xFF, 0x10, "thing", &["a", "b", "b"], &[1, 2, 4]).unwrap();
    assert_eq!(r, 0x12);
    let d = parse_flag_list(&names(&["c"]), 0xFF, 0, "thing", &["a"], &[1]).unwrap_err();
    assert_eq!(usage_message(d), "invalid thing 'c'; expected one of \"all\", \"a\"");
}

#[test]
fn absent_validation_options_select_everything() {
    let config = validator_config(None).unwrap();
    assert_eq!(config.flags, naga::valid::ValidationFlags::all().bits());
    assert_eq!(config.capabilities, naga::valid::Capabilities::all().bits());
    assert_eq!(config.stages, naga::valid::ShaderStages::all().bits());
    assert_eq!(config.operations, naga::valid::SubgroupOperationSet::all().bits());
    let explicit = ValidationOptions {
        flags: Some(names(&["all"])),
        capabilities: Some(names(&["all"])),
        subgroup_stages: Some(names(&["all"])),
        subgroup_operations: Some(names(&["all"])),
    };
    assert_eq!(validator_config(Some(&explicit)).unwrap(), config);
}

#[test]
fn validation_options_report_the_first_bad_field() {
    let options = ValidationOptions {
        flags: Some(names(&["blocks"])),
        capabilities: Some(vec![]),
        subgroup_stages: Some(names(&["warp"])),
        subgroup_operations: Some(names(&["nope"])),
    };
    let d = validator_config(Some(&options)).unwrap_err();
    assert!(usage_message(d).starts_with("invalid subgroup stage 'warp'; expected one of \"all\", \"vertex\""));
    let options = ValidationOptions {
        flags: Some(names(&["blocks"])),
        capabilities: Some(vec![]),
        subgroup_stages: None,
        subgroup_operations: Some(names(&["basic"])),
    };
    let config = validator_config(Some(&options)).unwrap();
    assert_eq!(config.flags, 2);
    assert_eq!(config.capabilities, 0);
    assert_eq!(config.stages, 0x1FF);
    assert_eq!(config.operations, 1);
}

#[test]
fn glsl_versions_parse() {
    assert_eq!(parse_glsl_version("310 es").unwrap(), GlslVersion::Embedded(310));
    assert_eq!(parse_glsl_version("  300ES ").unwrap(), GlslVersion::Embedded(300));
    assert_eq!(parse_glsl_version("450").unwrap(), GlslVersion::Desktop(450));
    assert_eq!(parse_glsl_version("+330").unwrap(), GlslVersion::Desktop(330));
    assert_eq!(parse_glsl_version("0450").unwrap(), GlslVersion::Desktop(450));
    assert_eq!(
        usage_message(parse_glsl_version(" 4.5 ").unwrap_err()),
        "invalid `glslVersion` ' 4.5 '; expected e.g. \"310 es\" or \"450\""
    );
    assert!(parse_glsl_version("70000").is_err());
    assert!(parse_glsl_version("es").is_err());
    assert!(parse_glsl_version("").is_err());
    assert!(parse_glsl_version("+").is_err());
    assert!(parse_glsl_version("-1").is_err());
}

#[test]
fn hlsl_shader_models_parse() {
    assert_eq!(parse_hlsl_shader_model(" 6_0\t").unwrap(), HlslShaderModel::V6_0);
    assert_eq!(parse_hlsl_shader_model("5_1").unwrap(), HlslShaderModel::V5_1);
    assert_eq!(parse_hlsl_shader_model("6_9").unwrap(), HlslShaderModel::V6_9);
    assert_eq!(
        usage_message(parse_hlsl_shader_model("  7_0 ").unwrap_err()),
        "invalid `hlslShaderModel` '7_0'; expected e.g. \"5_1\" or \"6_0\""
    );
}

fn entry(stage: PipelineStage, name: &str) -> EntryPoint {
    EntryPoint { stage, name: name.to_owned() }
}

#[test]
fn entry_points_resolve() {
    let one = vec![entry(PipelineStage::Compute, "main")];
    let (stage, name) = resolve_entry_point(&one, None, None).unwrap();
    assert_eq!(stage, PipelineStage::Compute);
    assert_eq!(name, "main");
    let (stage, _) = resolve_entry_point(&one, Some(ShaderStage::Vertex), None).unwrap();
    assert_eq!(stage, PipelineStage::Compute);

    let two = vec![entry(PipelineStage::Vertex, "vs"), entry(PipelineStage::Fragment, "fs")];
    let (stage, name) = resolve_entry_point(&two, Some(ShaderStage::Fragment), Some("fs")).unwrap();
    assert_eq!((stage, name.as_str()), (PipelineStage::Fragment, "fs"));
    assert_eq!(
        usage_message(resolve_entry_point(&two, Some(ShaderStage::Vertex), Some("fs")).unwrap_err()),
        "entry point 'fs' with stage Vertex not found in module"
    );
    assert_eq!(
        usage_message(resolve_entry_point(&two, None, None).unwrap_err()),
        "shader has multiple entry points; specify `stage` and `entryPoint`"
    );
    assert_eq!(
        usage_message(resolve_entry_point_optional(&two, None, None).unwrap_err()),
        "shader has multiple entry points; specify `stage` and `entryPoint`"
    );
    assert!(resolve_entry_point_optional(&Vec::new(), None, None).unwrap().is_none());
    assert!(resolve_entry_point_optional(&two, Some(ShaderStage::Compute), None).is_err());
    let (stage, name) = resolve_entry_point_optional(&one, None, None).unwrap().unwrap();
    assert_eq!((stage, name.as_str()), (PipelineStage::Compute, "main"));
}

#[test]
fn output_plans_follow_the_options() {
    let two = vec![entry(PipelineStage::Vertex, "vs"), entry(PipelineStage::Fragment, "fs")];
    match plan_output(OutputFormat::Glsl, Some(ShaderStage::Vertex), Some("vs"), None, None, &two).unwrap() {
        OutputPlan::Glsl { version, stage, entry_name } => {
            assert_eq!(version, GlslVersion::Embedded(310));
            assert_eq!(stage, PipelineStage::Vertex);
            assert_eq!(entry_name, "vs");
        }
        other => panic!("unexpected plan {other:?}"),
    }
    // The entry point is checked before the version.
    let d = plan_output(OutputFormat::Glsl, None, None, Some("bad"), None, &two).unwrap_err();
    assert_eq!(usage_message(d), "shader has multiple entry points; specify `stage` and `entryPoint`");
    // The shader model is checked before the entry point.
    let d = plan_output(OutputFormat::Hlsl, None, None, None, Some("bad"), &two).unwrap_err();
    assert_eq!(usage_message(d), "invalid `hlslShaderModel` 'bad'; expected e.g. \"5_1\" or \"6_0\"");
    match plan_output(OutputFormat::Hlsl, Some(ShaderStage::Fragment), Some("fs"), None, None, &two).unwrap() {
        OutputPlan::Hlsl { shader_model, entry_point, fragment } => {
            assert_eq!(shader_model, HlslShaderModel::V5_1);
            assert_eq!(entry_point, Some((PipelineStage::Fragment, "fs".to_owned())));
            assert_eq!(fragment, Some("fs".to_owned()));
        }
        other => panic!("unexpected plan {other:?}"),
    }
    match plan_output(OutputFormat::Msl, None, None, None, None, &two).unwrap() {
        OutputPlan::Msl { entry_point } => assert_eq!(entry_point, None),
        other => panic!("unexpected plan {other:?}"),
    }
    let d = plan_output(OutputFormat::Spv, None, None, None, None, &two).unwrap_err();
    assert_eq!(usage_message(d), "shader has multiple entry points; specify `stage` and `entryPoint`");
    match plan_output(OutputFormat::Spv, Some(ShaderStage::Vertex), Some("vs"), None, None, &two).unwrap() {
        OutputPlan::Spv { entry_point } => assert_eq!(entry_point, Some((PipelineStage::Vertex, "vs".to_owned()))),
        other => panic!("unexpected plan {other:?}"),
    }
}

#[test]
fn spirv_words_become_little_endian_bytes() {
    assert_eq!(
        words_to_le_bytes(&vec![0x0723_0203, 0x0001_0600]),
        vec![0x03, 0x02, 0x23, 0x07, 0x00, 0x06, 0x01, 0x00]
    );
    assert!(words_to_le_bytes(&vec![]).is_empty());
}

#[test]
fn locations_count_lines_and_byte_columns() {
    assert_eq!(source_location("ab\ncd\nef", 4, 6), (2, 2, 2));
    assert_eq!(source_location("fn broken( { nonsense", 11, 12), (1, 12, 1));
    assert_eq!(source_location("é\nx", 3, 4), (2, 1, 1));
    assert_eq!(source_location("", 0, 0), (1, 1, 0));
}

fn span(start: u32, end: u32, message: &str) -> SpanText {
    SpanText { start, end, message: message.to_owned() }
}

#[test]
fn labels_skip_undefined_spans_and_binary_source() {
    let mut labels: Vec<Label> = Vec::new();
    push_label(&mut labels, &span(0, 0, "nowhere"), Some("abc"));
    assert!(labels.is_empty());
    push_label(&mut labels, &span(1, 2, "b"), None);
    assert!(labels.is_empty());
    push_label(&mut labels, &span(1, 2, "b"), Some("a\nb"));
    assert_eq!(labels.len(), 1);
    assert_eq!((labels[0].line, labels[0].column, labels[0].length), (1, 2, 1));
    assert_eq!(labels[0].message, "b");
}

#[test]
fn validation_messages_gain_their_location() {
    let spans = vec![span(5, 8, "here"), span(0, 1, "there")];
    assert_eq!(
        with_location("bad thing".to_owned(), &spans, Some("x\nyy\nzzz")),
        "bad thing (at line 3, column 1)"
    );
    assert_eq!(with_location("bad thing".to_owned(), &spans, None), "bad thing");
    assert_eq!(with_location("bad thing".to_owned(), &vec![], Some("abc")), "bad thing");
    assert_eq!(with_location("bad thing".to_owned(), &spans, Some("")), "bad thing");
}

#[test]
fn thrown_messages_are_the_detailed_messages() {
    let d = Diagnostic::parse("GLSL", "oops".to_owned());
    assert_eq!(d.thrown_message(), "oops");
    let d = Diagnostic::usage("bad option".to_owned());
    assert_eq!(d.thrown_message(), "bad option");
    let d = Diagnostic {
        kind: DiagnosticKind::Backend,
        form: "MSL",
        message: "no".to_owned(),
        labels: vec![],
        notes: vec![],
    };
    assert_eq!(d.thrown_message(), "no");
    let d = Diagnostic {
        kind: DiagnosticKind::Validation,
        form: "",
        message: "bad".to_owned(),
        labels: vec![],
        notes: vec![],
    };
    assert_eq!(d.thrown_message(), "bad");
}

#[test]
fn exported_diagnostics_keep_every_field() {
    let d = Diagnostic {
        kind: DiagnosticKind::Parse,
        form: "WGSL",
        message: "broken".to_owned(),
        labels: vec![Label { line: 3, column: 4, length: 5, message: "here".to_owned() }],
        notes: vec!["note one".to_owned()],
    };
    let n = d.into_napi();
    assert_eq!(n.kind, "parse");
    assert_eq!(n.message, "broken");
    assert_eq!(n.labels.len(), 1);
    assert_eq!((n.labels[0].line, n.labels[0].column, n.labels[0].length), (3, 4, 5));
    assert_eq!(n.labels[0].message, "here");
    assert_eq!(n.notes, vec!["note one".to_owned()]);
    assert_eq!(Diagnostic::usage("x".to_owned()).into_napi().kind, "usage");
}
