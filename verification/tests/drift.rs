use naga_js::{
    ShaderSource, TranslateOptions, TranslateOutput, capability_name_table, parse_capabilities,
    parse_subgroup_operations, parse_subgroup_stages, parse_validation_flags,
    subgroup_operation_name_table, subgroup_stage_name_table, translate_impl,
    validation_flag_name_table,
};

/// Every name in a table must parse, and together they must cover the whole
/// bitflag set of naga.
fn assert_covers_all<A>(names: &[&str], parse: impl Fn(&str) -> Option<A>, all: A)
where
    A: Copy + std::ops::BitOr<Output = A> + PartialEq + std::fmt::Debug,
{
    let mut parsed = names
        .iter()
        .map(|name| parse(name).unwrap_or_else(|| panic!("stale validation name in table: {name}")));
    let first = parsed.next().expect("table must not be empty");
    assert_eq!(parsed.fold(first, |a, b| a | b), all);
}

#[test]
fn validation_flag_names_cover_naga() {
    assert_covers_all(
        &validation_flag_name_table(),
        |name| {
            parse_validation_flags(&[name.to_owned()])
                .ok()
                .filter(|flags| *flags != 0)
        },
        naga::valid::ValidationFlags::all().bits(),
    );
}

#[test]
fn capability_names_cover_naga() {
    assert_covers_all(
        &capability_name_table(),
        |name| {
            parse_capabilities(&[name.to_owned()])
                .ok()
                .filter(|caps| *caps != 0)
        },
        naga::valid::Capabilities::all().bits(),
    );
}

#[test]
fn subgroup_stage_names_cover_naga() {
    assert_covers_all(
        &subgroup_stage_name_table(),
        |name| {
            parse_subgroup_stages(&[name.to_owned()])
                .ok()
                .filter(|stages| *stages != 0)
        },
        naga::valid::ShaderStages::all().bits(),
    );
}

#[test]
fn subgroup_operation_names_cover_naga() {
    assert_covers_all(
        &subgroup_operation_name_table(),
        |name| {
            parse_subgroup_operations(&[name.to_owned()])
                .ok()
                .filter(|ops| *ops != 0)
        },
        naga::valid::SubgroupOperationSet::all().bits(),
    );
}

#[test]
fn unknown_validation_names_are_rejected() {
    assert!(parse_validation_flags(&["bogus".to_owned()]).is_err());
    assert!(parse_capabilities(&["nope".to_owned()]).is_err());
    assert!(parse_subgroup_stages(&["bogus".to_owned()]).is_err());
    assert!(parse_subgroup_operations(&["nope".to_owned()]).is_err());
}

#[test]
fn explicit_all_selects_everything() {
    assert_eq!(
        parse_validation_flags(&["all".to_owned()]).expect("all"),
        naga::valid::ValidationFlags::all().bits()
    );
    assert_eq!(
        parse_capabilities(&["all".to_owned()]).expect("all"),
        naga::valid::Capabilities::all().bits()
    );
}

#[test]
fn golden_wgsl_to_glsl_without_node() {
    let options = TranslateOptions {
        from: "wgsl".to_owned(),
        to: "glsl".to_owned(),
        source: ShaderSource::Text(
            "\n@fragment\nfn main_fs() -> @location(0) vec4<f32> {\n    return vec4<f32>(1.0, 1.0, 1.0, 1.0);\n}\n".to_owned(),
        ),
        stage: Some("fragment".to_owned()),
        entry_point: Some("main_fs".to_owned()),
        glsl_version: None,
        hlsl_shader_model: None,
        defines: None,
        validation: None,
    };
    match translate_impl(options).expect("golden translation") {
        TranslateOutput::Text(glsl) => assert!(glsl.contains("_fs2p_location0"), "unexpected GLSL:\n{glsl}"),
        TranslateOutput::Binary(_) => panic!("expected text output"),
    }
}

/// Each name of a table selects exactly naga's flag of the same name.
#[test]
fn table_names_match_naga_flag_names() {
    for name in validation_flag_name_table() {
        let expected = naga::valid::ValidationFlags::from_name(&name.to_uppercase()).expect(name);
        assert_eq!(parse_validation_flags(&[name.to_owned()]).unwrap(), expected.bits());
    }
    for name in capability_name_table() {
        let expected = naga::valid::Capabilities::from_name(&name.to_uppercase()).expect(name);
        assert_eq!(parse_capabilities(&[name.to_owned()]).unwrap(), expected.bits());
    }
    for name in subgroup_stage_name_table() {
        let expected = naga::valid::ShaderStages::from_name(&name.to_uppercase()).expect(name);
        assert_eq!(parse_subgroup_stages(&[name.to_owned()]).unwrap(), expected.bits());
    }
    for name in subgroup_operation_name_table() {
        let expected = naga::valid::SubgroupOperationSet::from_name(&name.to_uppercase()).expect(name);
        assert_eq!(parse_subgroup_operations(&[name.to_owned()]).unwrap(), expected.bits());
    }
}
