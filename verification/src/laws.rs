//! Properties of the library as a whole, each stated over the spec
//! functions that the operations' contracts use, and proved.

use vstd::prelude::*;
use crate::diagnostic::{Diagnostic, NagaDiagnostic, exported, thrown_text};
use crate::formats::{
    InputFormat, PipelineStage, ShaderStage, spec_pipeline_stage, spec_shader_stage, stage_debug_name,
};
use crate::compiler::{input_entries, validator_accepts, wgsl_frontend};
use crate::diagnostic::{DiagView, kind_name};
use crate::formats::{OutputFormat, spec_output_format, spec_input_format};
use crate::output::{opt_string_view, spec_plan_output};
use crate::pipeline::{
    OutputView, TranslateOptions, detailed_of, frontend_failure_view, frontend_input,
    source_bytes_of, spec_parse_stage, spec_translation, spec_validation, spec_wgsl_check, stage_choice, thrown_of,
    translation_plan,
};
use crate::output::{
    GlslVersion, HlslShaderModel, PlannedOutput, le_bytes, spec_entry_point_choice, spec_glsl_version,
    spec_hlsl_shader_model, spec_resolve_entry_point, spec_resolve_entry_point_optional,
    word_le_bytes,
};
use crate::spans::{line_start, location_column, location_line, newline_count};
use crate::validation::{
    ValidationOptions, capabilities_choice, capability_bits, capability_names, flag_union,
    spec_capabilities, table_lookup, flag_fold, names_all, spec_flag_list,
    spec_validator_config, subgroup_operations_choice, subgroup_stages_choice,
    validation_flags_choice,
};

verus! {

/// Naming `"all"` anywhere in a list selects every flag, whatever else the
/// list holds.
pub proof fn law_all_selects_everything(
    list: Seq<String>,
    all: u64,
    empty: u64,
    names: Seq<&str>,
    flags: Seq<u64>,
)
    requires
        names_all(list),
    ensures
        spec_flag_list(list, all, empty, names, flags) == Ok::<u64, Seq<char>>(all),
{
}

/// An empty list selects no flag.
pub proof fn law_empty_list_selects_nothing(all: u64, empty: u64, names: Seq<&str>, flags: Seq<u64>)
    ensures
        spec_flag_list(Seq::empty(), all, empty, names, flags) == Ok::<u64, Seq<char>>(empty),
{
    assert(!names_all(Seq::<String>::empty()));
}

/// Passing `"all"` in every field of the validation options has the same
/// effect as passing no options: every field defaults to `"all"`.
pub proof fn law_explicit_all_is_default(options: ValidationOptions)
    requires
        options.flags matches Some(l) && names_all(l@),
        options.capabilities matches Some(l) && names_all(l@),
        options.subgroup_stages matches Some(l) && names_all(l@),
        options.subgroup_operations matches Some(l) && names_all(l@),
    ensures
        spec_validator_config(Some(options)) == spec_validator_config(None),
{
    assert(validation_flags_choice(options.flags) == validation_flags_choice(None));
    assert(capabilities_choice(options.capabilities) == capabilities_choice(None));
    assert(subgroup_stages_choice(options.subgroup_stages) == subgroup_stages_choice(None));
    assert(subgroup_operations_choice(options.subgroup_operations) == subgroup_operations_choice(
        None,
    ));
}

/// When the module has a single entry point and the caller does not name
/// both a stage and an entry point, that entry point is used, by every
/// backend that picks one.
pub proof fn law_sole_entry_point_is_used(
    eps: Seq<(PipelineStage, Seq<char>)>,
    stage: Option<ShaderStage>,
    name: Option<Seq<char>>,
)
    requires
        eps.len() == 1,
        stage is None || name is None,
    ensures
        spec_resolve_entry_point(eps, stage, name) == Ok::<(PipelineStage, Seq<char>), Seq<char>>(
            eps[0],
        ),
        spec_resolve_entry_point_optional(eps, stage, name) == Ok::<
            Option<(PipelineStage, Seq<char>)>,
            Seq<char>,
        >(Some(eps[0])),
        spec_entry_point_choice(eps, stage, name) == Some(eps[0]),
{
}

/// An entry point that the module has, named by both stage and name, is
/// the one used.
pub proof fn law_named_entry_point_is_used(
    eps: Seq<(PipelineStage, Seq<char>)>,
    stage: ShaderStage,
    name: Seq<char>,
)
    requires
        eps.contains((crate::formats::spec_pipeline_stage(stage), name)),
    ensures
        spec_resolve_entry_point(eps, Some(stage), Some(name)) == Ok::<
            (PipelineStage, Seq<char>),
            Seq<char>,
        >((crate::formats::spec_pipeline_stage(stage), name)),
{
}

/// SPIR-V output holds four bytes per word, each word least significant
/// byte first.
pub proof fn law_spirv_bytes_are_little_endian(words: Seq<u32>, i: int, k: int)
    requires
        0 <= i < words.len(),
        0 <= k < 4,
    ensures
        le_bytes(words).len() == 4 * words.len(),
        le_bytes(words)[4 * i + k] == word_le_bytes(words[i])[k],
    decreases words.len(),
{
    lemma_le_bytes_length(words.drop_last());
    if i < words.len() - 1 {
        law_spirv_bytes_are_little_endian(words.drop_last(), i, k);
        assert(words.drop_last()[i] == words[i]);
    }
}

proof fn lemma_le_bytes_length(words: Seq<u32>)
    ensures
        le_bytes(words).len() == 4 * words.len(),
    decreases words.len(),
{
    if words.len() > 0 {
        lemma_le_bytes_length(words.drop_last());
    }
}

proof fn lemma_line_start_at_most(bytes: Seq<u8>)
    ensures
        line_start(bytes) <= bytes.len(),
    decreases bytes.len(),
{
    if bytes.len() != 0 {
        lemma_line_start_at_most(bytes.drop_last());
    }
}

/// Label lines and columns are 1-based: both are at least one.
pub proof fn law_locations_are_one_based(bytes: Seq<u8>, start: u32)
    requires
        start <= bytes.len(),
    ensures
        location_line(bytes, start) >= 1,
        location_column(bytes, start) >= 1,
{
    lemma_line_start_at_most(bytes.take(start as int));
}

/// The message that the throwing API raises for a failure is identical to
/// the message of the diagnostic that the detailed API hands callers.
pub proof fn law_thrown_message_is_the_detailed_message(d: Diagnostic, n: NagaDiagnostic)
    requires
        exported(d, n),
    ensures
        thrown_text(d) == n.message@,
{
}

/// Stage and preprocessor definitions matter for GLSL input only: WGSL and
/// SPIR-V sources come to the same stop, or the same entry points, whatever
/// stage and definitions are given.
pub proof fn law_stage_and_defines_only_matter_for_glsl(
    from: InputFormat,
    source: Seq<u8>,
    stage1: Option<ShaderStage>,
    stage2: Option<ShaderStage>,
    defines1: Seq<(Seq<char>, Seq<char>)>,
    defines2: Seq<(Seq<char>, Seq<char>)>,
    validation: Option<ValidationOptions>,
)
    requires
        from != InputFormat::Glsl,
    ensures
        spec_parse_stage(from, source, stage1, defines1, validation) == spec_parse_stage(
            from,
            source,
            stage2,
            defines2,
            validation,
        ),
{
}

/// A source that the frontend refuses is answered with a parse error of its
/// language, whatever validation options come with it: the options are
/// looked at only once the source is parsed.
pub proof fn law_refused_source_is_a_parse_error(
    from: InputFormat,
    source: Seq<u8>,
    stage: Option<ShaderStage>,
    defines: Seq<(Seq<char>, Seq<char>)>,
    validation: Option<ValidationOptions>,
)
    requires
        from == InputFormat::Spv || vstd::utf8::valid_utf8(source),
        from == InputFormat::Glsl ==> stage is Some,
        from == InputFormat::Glsl ==> crate::pipeline::first_bad_define(defines, 0) is None,
        input_entries(frontend_input(from, source, stage, defines)) is None,
    ensures
        spec_parse_stage(from, source, stage, defines, validation) == Err::<
            (crate::compiler::InputView, Seq<(PipelineStage, Seq<char>)>, (u64, u64, u64, u64)),
            DiagView,
        >(frontend_failure_view(frontend_input(from, source, stage, defines))),
{
}

/// The throwing and the detailed API report the same pipeline: one succeeds
/// exactly when the other does, with the same output; on failure the thrown
/// message is the detailed message.
pub proof fn law_throwing_and_detailed_apis_agree(outcome: Result<OutputView, DiagView>)
    ensures
        thrown_of(outcome) is Ok <==> detailed_of(outcome).0,
        thrown_of(outcome) matches Ok(out) ==> detailed_of(outcome).1 == Some(out),
        outcome matches Err(d) ==> {
            &&& detailed_of(outcome).2 matches Some(n) && n.kind == kind_name(d.kind)
            &&& thrown_of(outcome) == Err::<OutputView, Seq<char>>(
                detailed_of(outcome).2->Some_0.message,
            )
        },
{
}

/// Checking a WGSL shader depends on the validation options only through the
/// validator settings that they select: explicit `"all"` fields, absent
/// fields and absent options all check a shader alike.
pub proof fn law_settings_decide_validation(
    source: Seq<char>,
    v1: Option<ValidationOptions>,
    v2: Option<ValidationOptions>,
)
    requires
        spec_validator_config(v1) == spec_validator_config(v2),
    ensures
        spec_wgsl_check(source, v1) == spec_wgsl_check(source, v2),
{
}

/// A translation is decided by the languages, the source, the stage, the
/// definitions, the validator settings and what the options ask the backend
/// to write: two option sets that agree on these translate alike.
pub proof fn law_translation_follows_the_plan(o1: TranslateOptions, o2: TranslateOptions)
    requires
        o1.from@ == o2.from@,
        o1.to@ == o2.to@,
        source_bytes_of(o1.source) == source_bytes_of(o2.source),
        stage_choice(o1.stage) == stage_choice(o2.stage),
        spec_input_format(o1.from@) == Some(crate::formats::InputFormat::Glsl) ==> match (
            o1.defines,
            o2.defines,
        ) {
            (Some(d1), Some(d2)) => crate::compiler::defines_view(d1@)
                == crate::compiler::defines_view(d2@),
            (None, None) => true,
            _ => false,
        },
        spec_validator_config(o1.validation) == spec_validator_config(o2.validation),
        forall|eps: Seq<(PipelineStage, Seq<char>)>|
            #[trigger] translation_plan(o1, eps) == translation_plan(o2, eps),
    ensures
        spec_translation(o1) == spec_translation(o2),
{
    let from = spec_input_format(o1.from@);
    if from is Some && from != Some(crate::formats::InputFormat::Glsl) {
        let f = from->Some_0;
        let s = stage_choice(o1.stage)->Ok_0;
        let d1 = match o1.defines {
            Some(d) => crate::compiler::defines_view(d@),
            None => Seq::empty(),
        };
        let d2 = match o2.defines {
            Some(d) => crate::compiler::defines_view(d@),
            None => Seq::empty(),
        };
        law_stage_and_defines_only_matter_for_glsl(
            f,
            source_bytes_of(o1.source),
            s,
            s,
            d1,
            d2,
            o1.validation,
        );
    }
    match spec_translation(o1) {
        _ => {
            if let Ok((_, eps, _)) = crate::pipeline::spec_validation(
                spec_input_format(o1.from@)->Some_0,
                source_bytes_of(o1.source),
                stage_choice(o1.stage)->Ok_0,
                match o1.defines {
                    Some(d) => crate::compiler::defines_view(d@),
                    None => Seq::empty(),
                },
                o1.validation,
            ) {
                assert(translation_plan(o1, eps) == translation_plan(o2, eps));
            }
        },
    }
}

/// Options that the chosen languages do not use are neither used nor
/// checked: the GLSL version for other output, the HLSL shader model for
/// other output, the entry point name for WGSL and DOT output.
pub proof fn law_unused_options_do_not_matter(o1: TranslateOptions, o2: TranslateOptions)
    requires
        o1.from@ == o2.from@,
        o1.to@ == o2.to@,
        source_bytes_of(o1.source) == source_bytes_of(o2.source),
        stage_choice(o1.stage) == stage_choice(o2.stage),
        match (o1.defines, o2.defines) {
            (Some(d1), Some(d2)) => crate::compiler::defines_view(d1@)
                == crate::compiler::defines_view(d2@),
            (None, None) => true,
            _ => false,
        },
        spec_validator_config(o1.validation) == spec_validator_config(o2.validation),
        opt_string_view(o1.glsl_version) == opt_string_view(o2.glsl_version)
            || spec_output_format(o1.to@) != Some(OutputFormat::Glsl),
        opt_string_view(o1.hlsl_shader_model) == opt_string_view(o2.hlsl_shader_model)
            || spec_output_format(o1.to@) != Some(OutputFormat::Hlsl),
        opt_string_view(o1.entry_point) == opt_string_view(o2.entry_point) || spec_output_format(
            o1.to@,
        ) == Some(OutputFormat::Wgsl) || spec_output_format(o1.to@) == Some(OutputFormat::Dot),
    ensures
        spec_translation(o1) == spec_translation(o2),
{
    if spec_output_format(o1.to@) is Some {
        assert forall|eps: Seq<(PipelineStage, Seq<char>)>|
            #[trigger] translation_plan(o1, eps) == translation_plan(o2, eps) by {
            let to = spec_output_format(o1.to@);
            let e1 = opt_string_view(o1.entry_point);
            let e2 = opt_string_view(o2.entry_point);
            if to == Some(OutputFormat::Glsl) {
                assert(e1 == e2);
                assert(opt_string_view(o1.glsl_version) == opt_string_view(o2.glsl_version));
            } else if to == Some(OutputFormat::Hlsl) {
                assert(e1 == e2);
                assert(opt_string_view(o1.hlsl_shader_model) == opt_string_view(
                    o2.hlsl_shader_model,
                ));
            } else if to == Some(OutputFormat::Msl) || to == Some(OutputFormat::Spv) {
                assert(e1 == e2);
            }
        }
        law_translation_follows_the_plan(o1, o2);
    }
}

/// What tells the capability names apart: length, first and last character.
spec fn name_key(s: Seq<char>) -> (nat, char, char) {
    (s.len(), s[0], s[s.len() - 1])
}

/// No two capability names are the same, and none is `"all"`.
#[verifier::rlimit(100)]
proof fn lemma_capability_names_differ(a: int, b: int)
    requires
        0 <= a < 44,
        0 <= b < 44,
    ensures
        a != b ==> capability_names()[a]@ != capability_names()[b]@,
        capability_names()[a]@ != "all"@,
{
    reveal_strlit("immediates");
    reveal_strlit("float64");
    reveal_strlit("primitive_index");
    reveal_strlit("texture_and_sampler_binding_array");
    reveal_strlit("buffer_binding_array");
    reveal_strlit("storage_texture_binding_array");
    reveal_strlit("storage_buffer_binding_array");
    reveal_strlit("clip_distances");
    reveal_strlit("cull_distance");
    reveal_strlit("storage_texture_16bit_norm_formats");
    reveal_strlit("multiview");
    reveal_strlit("early_depth_test");
    reveal_strlit("multisampled_shading");
    reveal_strlit("ray_query");
    reveal_strlit("dual_source_blending");
    reveal_strlit("cube_array_textures");
    reveal_strlit("shader_int64");
    reveal_strlit("subgroup");
    reveal_strlit("subgroup_barrier");
    reveal_strlit("subgroup_vertex_stage");
    reveal_strlit("shader_int64_atomic_min_max");
    reveal_strlit("shader_int64_atomic_all_ops");
    reveal_strlit("shader_float32_atomic");
    reveal_strlit("texture_atomic");
    reveal_strlit("texture_int64_atomic");
    reveal_strlit("ray_hit_vertex_position");
    reveal_strlit("shader_float16");
    reveal_strlit("texture_external");
    reveal_strlit("shader_float16_in_float32");
    reveal_strlit("shader_barycentrics");
    reveal_strlit("mesh_shader");
    reveal_strlit("mesh_shader_point_topology");
    reveal_strlit("texture_and_sampler_binding_array_non_uniform_indexing");
    reveal_strlit("buffer_binding_array_non_uniform_indexing");
    reveal_strlit("storage_texture_binding_array_non_uniform_indexing");
    reveal_strlit("storage_buffer_binding_array_non_uniform_indexing");
    reveal_strlit("cooperative_matrix");
    reveal_strlit("per_vertex");
    reveal_strlit("ray_tracing_pipeline");
    reveal_strlit("draw_index");
    reveal_strlit("acceleration_structure_binding_array");
    reveal_strlit("memory_decoration_coherent");
    reveal_strlit("memory_decoration_volatile");
    reveal_strlit("shader_int16");
    reveal_strlit("all");
    let n = capability_names();
    if a < b {
        assert(name_key(n[a]@) != name_key(n[b]@));
    } else if b < a {
        assert(name_key(n[b]@) != name_key(n[a]@));
    }
    assert(name_key(n[a]@) != name_key("all"@));
}

/// A name found at `i` and at no earlier entry selects the flag at `i`.
proof fn lemma_lookup_first(names: Seq<&str>, flags: Seq<u64>, i: int)
    requires
        names.len() == flags.len(),
        0 <= i < names.len(),
        forall|k: int| 0 <= k < i ==> #[trigger] names[k]@ != names[i]@,
    ensures
        table_lookup(names, flags, names[i]@) == Some(flags[i]),
    decreases i,
{
    if i > 0 {
        assert(names.drop_first()[i - 1] == names[i]);
        assert forall|k: int| 0 <= k < i - 1 implies #[trigger] names.drop_first()[k]@ != names.drop_first()[
            i - 1]@ by {
            assert(names.drop_first()[k] == names[k + 1]);
        }
        lemma_lookup_first(names.drop_first(), flags.drop_first(), i - 1);
    }
}

/// The capability name at `i` selects the capability bit at `i`.
proof fn lemma_capability_lookup(i: int)
    requires
        0 <= i < 44,
    ensures
        table_lookup(capability_names(), capability_bits(), capability_names()[i]@) == Some(
            capability_bits()[i],
        ),
{
    assert forall|k: int| 0 <= k < i implies #[trigger] capability_names()[k]@
        != capability_names()[i]@ by {
        lemma_capability_names_differ(k, i);
    }
    lemma_lookup_first(capability_names(), capability_bits(), i);
}

/// Folding the names from `k` on, after the flags before `k`, gives every flag.
proof fn lemma_fold_every_capability(list: Seq<String>, k: int)
    requires
        list.len() == 44,
        forall|m: int| 0 <= m < 44 ==> #[trigger] list[m]@ == capability_names()[m]@,
        0 <= k <= 44,
    ensures
        flag_fold(
            list.subrange(k, 44),
            capability_names(),
            capability_bits(),
            flag_union(capability_bits().take(k)),
        ) == Ok::<u64, Seq<char>>(flag_union(capability_bits())),
    decreases 44 - k,
{
    let bits = capability_bits();
    if k == 44 {
        assert(bits.take(44) =~= bits);
    } else {
        lemma_capability_lookup(k);
        assert(list.subrange(k, 44)[0]@ == capability_names()[k]@);
        assert(list.subrange(k, 44).drop_first() =~= list.subrange(k + 1, 44));
        assert(bits.take(k + 1).drop_last() =~= bits.take(k));
        lemma_fold_every_capability(list, k + 1);
    }
}

/// Every capability name stands for a capability of its own, and together
/// they stand for all of them: each name selects exactly its own nonzero
/// bit, no two names select the same bit, and naming every capability
/// selects what `"all"` selects.
pub proof fn law_capability_names_cover_the_capabilities(list: Seq<String>, i: int, j: int)
    requires
        list.len() == capability_names().len(),
        forall|m: int| 0 <= m < list.len() ==> #[trigger] list[m]@ == capability_names()[m]@,
        0 <= i < list.len(),
        0 <= j < list.len(),
        i != j,
    ensures
        capability_names().len() == 44,
        spec_capabilities(seq![list[i]]) == Ok::<u64, Seq<char>>(capability_bits()[i]),
        capability_bits()[i] != 0,
        capability_bits()[i] != capability_bits()[j],
        spec_capabilities(list) == Ok::<u64, Seq<char>>(flag_union(capability_bits())),
{
    let bits = capability_bits();
    lemma_capability_names_differ(i, j);
    lemma_capability_lookup(i);
    let f = bits[i];
    assert(0u64 | f == f) by (bit_vector);
    let one = seq![list[i]];
    assert(one[0] == list[i]);
    assert(one.drop_first() =~= Seq::<String>::empty());
    assert(table_lookup(capability_names(), bits, one[0]@) == Some(f));
    assert(flag_fold(one, capability_names(), bits, 0) == flag_fold(
        one.drop_first(),
        capability_names(),
        bits,
        0u64 | f,
    ));
    assert(!names_all(one));
    assert forall|m: int| 0 <= m < list.len() implies #[trigger] list[m]@ != "all"@ by {
        lemma_capability_names_differ(m, m);
    }
    assert(!names_all(list));
    lemma_fold_every_capability(list, 0);
    assert(list.subrange(0, 44) =~= list);
    assert(bits.take(0) =~= Seq::<u64>::empty());
}

/// Reading SPIR-V output back four bytes at a time, least significant byte
/// first, gives the writer's words: nothing of a word is lost or changed.
pub proof fn law_spirv_bytes_decode_to_the_words(words: Seq<u32>, i: int)
    requires
        0 <= i < words.len(),
    ensures
        le_bytes(words).len() == 4 * words.len(),
        le_bytes(words)[4 * i] + 256 * le_bytes(words)[4 * i + 1] + 65536 * le_bytes(words)[4 * i
            + 2] + 16777216 * le_bytes(words)[4 * i + 3] == words[i] as int,
{
    law_spirv_bytes_are_little_endian(words, i, 0);
    law_spirv_bytes_are_little_endian(words, i, 1);
    law_spirv_bytes_are_little_endian(words, i, 2);
    law_spirv_bytes_are_little_endian(words, i, 3);
    let w = words[i];
    let b0 = (w & 0xff) as u8;
    let b1 = ((w >> 8) & 0xff) as u8;
    let b2 = ((w >> 16) & 0xff) as u8;
    let b3 = (w >> 24) as u8;
    assert(b0 + 256 * b1 + 65536 * b2 + 16777216 * b3 == w) by (bit_vector)
        requires
            b0 == (w & 0xff) as u8,
            b1 == ((w >> 8) & 0xff) as u8,
            b2 == ((w >> 16) & 0xff) as u8,
            b3 == (w >> 24) as u8,
    ;
}

proof fn lemma_newlines_are_counted(bytes: Seq<u8>)
    ensures
        newline_count(bytes) == bytes.filter(|b: u8| b == 10u8).len(),
        line_start(bytes) <= bytes.len(),
        line_start(bytes) == 0 || bytes[line_start(bytes) - 1] == 10u8,
        forall|k: int| line_start(bytes) <= k < bytes.len() ==> bytes[k] != 10u8,
    decreases bytes.len(),
{
    if bytes.len() > 0 {
        lemma_newlines_are_counted(bytes.drop_last());
        reveal_with_fuel(Seq::filter, 2);
        let rest = bytes.drop_last().filter(|b: u8| b == 10u8);
        if bytes.last() == 10u8 {
            assert(bytes.filter(|b: u8| b == 10u8) =~= rest.push(bytes.last()));
        } else {
            assert(bytes.filter(|b: u8| b == 10u8) =~= rest);
        }
        assert forall|k: int| line_start(bytes) <= k < bytes.len() implies bytes[k] != 10u8 by {
            if k < bytes.len() - 1 {
                assert(bytes[k] == bytes.drop_last()[k]);
            }
        }
        if line_start(bytes) > 0 && line_start(bytes) < bytes.len() {
            assert(bytes[line_start(bytes) - 1] == bytes.drop_last()[line_start(bytes) - 1]);
        }
    }
}

/// Label locations count lines by the newline byte (10) alone: the line is
/// one more than the newline bytes before the span start, and the column is
/// one more than the bytes between the last of them and the start; no other
/// byte, such as a carriage return (13), starts a line.
pub proof fn law_lines_end_at_newline_bytes(bytes: Seq<u8>, start: u32)
    requires
        start <= bytes.len(),
    ensures
        location_line(bytes, start) == bytes.take(start as int).filter(|b: u8| b == 10u8).len()
            + 1,
        1 <= location_column(bytes, start) <= start + 1,
        ({
            let first = start - location_column(bytes, start) + 1;
            &&& first == 0 || bytes[first - 1] == 10u8
            &&& forall|k: int| first <= k < start ==> bytes[k] != 10u8
        }),
{
    let prefix = bytes.take(start as int);
    lemma_newlines_are_counted(prefix);
    let first = line_start(prefix) as int;
    if first > 0 {
        assert(bytes[first - 1] == prefix[first - 1]);
    }
    assert forall|k: int| first <= k < start implies bytes[k] != 10u8 by {
        assert(bytes[k] == prefix[k]);
    }
}

/// The validator runs with exactly the settings that the validation options
/// select: once the source is parsed and the options are good, validation
/// passes exactly when naga's validator accepts the module with those
/// settings, and a passing module carries them.
pub proof fn law_validation_runs_with_the_selected_settings(
    from: InputFormat,
    source: Seq<u8>,
    stage: Option<ShaderStage>,
    defines: Seq<(Seq<char>, Seq<char>)>,
    validation: Option<ValidationOptions>,
    bits: (u64, u64, u64, u64),
)
    requires
        spec_parse_stage(from, source, stage, defines, validation) is Ok,
        spec_validator_config(validation) == Ok::<(u64, u64, u64, u64), Seq<char>>(bits),
    ensures
        spec_validation(from, source, stage, defines, validation) is Ok <==> validator_accepts(
            frontend_input(from, source, stage, defines),
            bits,
        ),
        spec_validation(from, source, stage, defines, validation) matches Ok((_, _, b)) ==> b
            == bits,
{
}

/// Checking WGSL text: it passes exactly when naga's frontend accepts it, the
/// options are good and naga's validator accepts the module with the
/// settings that the options select.
pub proof fn law_wgsl_check_uses_the_selected_settings(
    text: Seq<char>,
    validation: Option<ValidationOptions>,
    bits: (u64, u64, u64, u64),
)
    requires
        spec_validator_config(validation) == Ok::<(u64, u64, u64, u64), Seq<char>>(bits),
    ensures
        spec_wgsl_check(text, validation) is Ok <==> wgsl_frontend(text) is Some
            && validator_accepts(crate::compiler::InputView::Wgsl(text), bits),
{
    vstd::utf8::encode_utf8_valid_utf8(text);
    vstd::utf8::encode_utf8_decode_utf8(text);
}

/// An upper case ASCII letter for a lower case one; any other character unchanged.
pub open spec fn ascii_upper(c: char) -> char {
    if 'a' <= c <= 'z' {
        ((c as u32) - 32) as char
    } else {
        c
    }
}

/// Each stage name selects the stage of the same name: the name with its
/// first letter in upper case is the name of the stage's variant (as
/// diagnostics print it), and every stage has such a name.
pub proof fn law_stage_names_select_their_stages(s: Seq<char>, stage: ShaderStage)
    ensures
        spec_shader_stage(s) == Some(stage) ==> {
            &&& s.len() > 0
            &&& 'a' <= s[0] <= 'z'
            &&& seq![ascii_upper(s[0])] + s.drop_first() == stage_debug_name(
                spec_pipeline_stage(stage),
            )
        },
        spec_shader_stage(stage_name_of(stage)) == Some(stage),
{
    reveal_strlit("vertex");
    reveal_strlit("fragment");
    reveal_strlit("compute");
    reveal_strlit("Vertex");
    reveal_strlit("Fragment");
    reveal_strlit("Compute");
    match stage {
        ShaderStage::Vertex => assert(stage_name_of(stage) =~= "vertex"@),
        ShaderStage::Fragment => assert(stage_name_of(stage) =~= "fragment"@),
        ShaderStage::Compute => assert(stage_name_of(stage) =~= "compute"@),
    }
    if spec_shader_stage(s) == Some(stage) {
        match stage {
            ShaderStage::Vertex => {
                assert(s == "vertex"@);
                assert(seq![ascii_upper(s[0])] + s.drop_first() =~= "Vertex"@);
            },
            ShaderStage::Fragment => {
                assert(s == "fragment"@);
                assert(seq![ascii_upper(s[0])] + s.drop_first() =~= "Fragment"@);
            },
            ShaderStage::Compute => {
                assert(s == "compute"@);
                assert(seq![ascii_upper(s[0])] + s.drop_first() =~= "Compute"@);
            },
        }
    }
}

/// The name of a stage as callers write it: the name of its variant with
/// the first letter in lower case.
pub open spec fn stage_name_of(stage: ShaderStage) -> Seq<char> {
    let d = stage_debug_name(spec_pipeline_stage(stage));
    seq![((d[0] as u32) + 32) as char] + d.drop_first()
}

/// The major and minor version that an HLSL shader model's variant names.
pub open spec fn model_version(m: HlslShaderModel) -> (nat, nat) {
    match m {
        HlslShaderModel::V5_0 => (5, 0),
        HlslShaderModel::V5_1 => (5, 1),
        HlslShaderModel::V6_0 => (6, 0),
        HlslShaderModel::V6_1 => (6, 1),
        HlslShaderModel::V6_2 => (6, 2),
        HlslShaderModel::V6_3 => (6, 3),
        HlslShaderModel::V6_4 => (6, 4),
        HlslShaderModel::V6_5 => (6, 5),
        HlslShaderModel::V6_6 => (6, 6),
        HlslShaderModel::V6_7 => (6, 7),
        HlslShaderModel::V6_8 => (6, 8),
        HlslShaderModel::V6_9 => (6, 9),
    }
}

/// The decimal digit of `d`.
pub open spec fn digit_of(d: nat) -> char {
    ((d + 48) as u32) as char
}

/// The name of a shader model as callers write it: major, `_`, minor.
pub open spec fn model_name(m: HlslShaderModel) -> Seq<char> {
    seq![digit_of(model_version(m).0), '_', digit_of(model_version(m).1)]
}

/// A shader model name selects the model of that version: what it selects
/// is named by the trimmed text, and every model is selected by its name,
/// so no two names select the same model.
pub proof fn law_shader_model_names_select_their_models(s: Seq<char>, m: HlslShaderModel)
    ensures
        spec_hlsl_shader_model(s) == Some(m) ==> crate::text::trimmed(s) == model_name(m),
        spec_hlsl_shader_model(model_name(m)) == Some(m),
{
    reveal_strlit("5_0");
    reveal_strlit("5_1");
    reveal_strlit("6_0");
    reveal_strlit("6_1");
    reveal_strlit("6_2");
    reveal_strlit("6_3");
    reveal_strlit("6_4");
    reveal_strlit("6_5");
    reveal_strlit("6_6");
    reveal_strlit("6_7");
    reveal_strlit("6_8");
    reveal_strlit("6_9");
    match m {
        HlslShaderModel::V5_0 => assert(model_name(m) =~= "5_0"@),
        HlslShaderModel::V5_1 => assert(model_name(m) =~= "5_1"@),
        HlslShaderModel::V6_0 => assert(model_name(m) =~= "6_0"@),
        HlslShaderModel::V6_1 => assert(model_name(m) =~= "6_1"@),
        HlslShaderModel::V6_2 => assert(model_name(m) =~= "6_2"@),
        HlslShaderModel::V6_3 => assert(model_name(m) =~= "6_3"@),
        HlslShaderModel::V6_4 => assert(model_name(m) =~= "6_4"@),
        HlslShaderModel::V6_5 => assert(model_name(m) =~= "6_5"@),
        HlslShaderModel::V6_6 => assert(model_name(m) =~= "6_6"@),
        HlslShaderModel::V6_7 => assert(model_name(m) =~= "6_7"@),
        HlslShaderModel::V6_8 => assert(model_name(m) =~= "6_8"@),
        HlslShaderModel::V6_9 => assert(model_name(m) =~= "6_9"@),
    }
    let n = model_name(m);
    assert(!crate::text::is_white_space(n[0]));
    assert(!crate::text::is_white_space(n.last()));
    assert(crate::text::leading_white(n) == 0);
    assert(crate::text::trailing_white(n) == 0);
    assert(n.skip(0) =~= n);
    assert(n.take(n.len() as int) =~= n);
}

} // verus!
