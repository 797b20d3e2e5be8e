//! The calls into the `naga` shader compiler: its frontends, its validator
//! and its backends. Each item here is trusted: Verus believes its contract
//! without reading its body.
//!
//! naga's modules, module infos and errors are opaque to Verus. Each of them
//! travels here together with the plain values that it was made from (the
//! frontend's arguments, the validator's settings), in a struct whose fields
//! only the items of this module set. What naga computes from them is named
//! as a function of those plain values: naga is deterministic (its hash maps
//! use fixed hashers), so the same values give the same result.

use vstd::prelude::*;
use vstd::utf8::valid_utf8;
use naga::ShaderStage as NagaStage;
use naga::back::hlsl::ShaderModel as NagaModel;
use naga::back::{glsl, hlsl, msl, spv};
use naga::valid::{Capabilities, ShaderStages, SubgroupOperationSet, ValidationFlags};
use crate::formats::{PipelineStage, ShaderStage};
use crate::output::{EntryPoint, GlslVersion, HlslShaderModel, entry_view};
use crate::spans::{SpanText, spans_view};
use crate::validation::{ValidatorConfig, full_flags};

verus! {

/// A shader module in naga's intermediate representation.
#[verifier::external_type_specification]
#[verifier::external_body]
pub struct ExModule(naga::Module);

/// What naga's validator found out about a valid module.
#[verifier::external_type_specification]
#[verifier::external_body]
pub struct ExModuleInfo(naga::valid::ModuleInfo);

/// A pipeline stage as naga names it.
#[verifier::external_type_specification]
#[verifier::external_body]
pub struct ExShaderStage(NagaStage);

/// An HLSL shader model as naga names it.
#[verifier::external_type_specification]
#[verifier::external_body]
pub struct ExShaderModel(naga::back::hlsl::ShaderModel);

/// A failure of naga's WGSL frontend.
#[verifier::external_type_specification]
#[verifier::external_body]
pub struct ExWgslParseError(naga::front::wgsl::ParseError);

/// The failures of naga's GLSL frontend.
#[verifier::external_type_specification]
#[verifier::external_body]
pub struct ExGlslParseErrors(naga::front::glsl::ParseErrors);

/// An error together with the source spans that it concerns.
#[verifier::external_type_specification]
#[verifier::external_body]
#[verifier::reject_recursive_types(E)]
pub struct ExWithSpan<E>(naga::WithSpan<E>);

/// A failure of naga's validator.
#[verifier::external_type_specification]
#[verifier::external_body]
pub struct ExValidationError(naga::valid::ValidationError);

/// What naga's WGSL frontend makes of `text`: the entry points of the module
/// that it builds, or nothing when it refuses the text.
pub uninterp spec fn wgsl_frontend(text: Seq<char>) -> Option<Seq<(PipelineStage, Seq<char>)>>;

/// What naga's GLSL frontend makes of `text` for an entry point of `stage`
/// with the preprocessor definitions `defines` (a later pair replacing an
/// earlier one of the same name): the entry points of the module that it
/// builds, or nothing when it refuses the text.
pub uninterp spec fn glsl_frontend(
    text: Seq<char>,
    stage: ShaderStage,
    defines: Seq<(Seq<char>, Seq<char>)>,
) -> Option<Seq<(PipelineStage, Seq<char>)>>;

/// What naga's SPIR-V frontend makes of `bytes`: the entry points of the
/// module that it builds, or nothing when it refuses the bytes.
pub uninterp spec fn spirv_frontend(bytes: Seq<u8>) -> Option<Seq<(PipelineStage, Seq<char>)>>;

/// Whether the GLSL preprocessor takes `value` as the body of a definition
/// of `name`.
pub uninterp spec fn pp_define_accepted(name: Seq<char>, value: Seq<char>) -> bool;

/// The `Display` text of the error of `std::str::from_utf8` on `bytes`.
pub uninterp spec fn utf8_error_text(bytes: Seq<u8>) -> Seq<char>;

/// naga's rendering (`emit_to_string`) of the error of its WGSL frontend on `text`.
pub uninterp spec fn wgsl_error_rendering(text: Seq<char>) -> Seq<char>;

/// The labelled spans (`labels`) of the error of naga's WGSL frontend on
/// `text`, each as its `to_range` bounds (`0..0` when undefined) and text.
pub uninterp spec fn wgsl_error_spans(text: Seq<char>) -> Seq<(u32, u32, Seq<char>)>;

/// The notes (`notes`) of the error of naga's WGSL frontend on `text`.
pub uninterp spec fn wgsl_error_notes(text: Seq<char>) -> Seq<Seq<char>>;

/// naga's rendering (`emit_to_string`) of the errors of its GLSL frontend.
pub uninterp spec fn glsl_error_rendering(
    text: Seq<char>,
    stage: ShaderStage,
    defines: Seq<(Seq<char>, Seq<char>)>,
) -> Seq<char>;

/// The errors of naga's GLSL frontend, each as the bounds of its `meta`
/// span (`0..0` when undefined) and the `Display` text of its kind.
pub uninterp spec fn glsl_error_spans(
    text: Seq<char>,
    stage: ShaderStage,
    defines: Seq<(Seq<char>, Seq<char>)>,
) -> Seq<(u32, u32, Seq<char>)>;

/// The `Display` text of the error of naga's SPIR-V frontend on `bytes`.
pub uninterp spec fn spirv_error_text(bytes: Seq<u8>) -> Seq<char>;

/// What a frontend was given.
#[derive(Debug)]
pub enum FrontendInput {
    Wgsl(String),
    Glsl(String, ShaderStage, Vec<(String, String)>),
    Spv(Vec<u8>),
}

/// What a frontend was given, as plain values.
pub enum InputView {
    Wgsl(Seq<char>),
    Glsl(Seq<char>, ShaderStage, Seq<(Seq<char>, Seq<char>)>),
    Spv(Seq<u8>),
}

/// Preprocessor definitions as pairs of plain values.
pub open spec fn defines_view(defines: Seq<(String, String)>) -> Seq<(Seq<char>, Seq<char>)> {
    defines.map_values(|d: (String, String)| (d.0@, d.1@))
}

/// A frontend input as plain values.
pub open spec fn input_view(input: FrontendInput) -> InputView {
    match input {
        FrontendInput::Wgsl(t) => InputView::Wgsl(t@),
        FrontendInput::Glsl(t, s, d) => InputView::Glsl(t@, s, defines_view(d@)),
        FrontendInput::Spv(b) => InputView::Spv(b@),
    }
}

/// The entry points of the module that the frontend builds of `input`, each
/// as its stage and name in the order of the module's `entry_points`, or
/// nothing when the frontend refuses it.
pub open spec fn input_entries(input: InputView) -> Option<Seq<(PipelineStage, Seq<char>)>> {
    match input {
        InputView::Wgsl(t) => wgsl_frontend(t),
        InputView::Glsl(t, s, d) => glsl_frontend(t, s, d),
        InputView::Spv(b) => spirv_frontend(b),
    }
}

/// Whether naga's validator, with the settings `bits` (validation flags,
/// capabilities, subgroup stages, subgroup operations), accepts the module
/// that a frontend makes of `input`.
pub uninterp spec fn validator_accepts(input: InputView, bits: (u64, u64, u64, u64)) -> bool;

/// The `Display` text of the validator's error on that module.
pub uninterp spec fn validation_error_display(input: InputView, bits: (u64, u64, u64, u64)) -> Seq<
    char,
>;

/// The spans (`spans`) of the validator's error on that module, each as its
/// `to_range` bounds (`0..0` when undefined) and text.
pub uninterp spec fn validation_error_span_list(
    input: InputView,
    bits: (u64, u64, u64, u64),
) -> Seq<(u32, u32, Seq<char>)>;

/// What naga's WGSL backend writes of the validated module: the text, or
/// the `Display` text of its error.
pub uninterp spec fn wgsl_backend(input: InputView, bits: (u64, u64, u64, u64)) -> Result<
    Seq<char>,
    Seq<char>,
>;

/// What naga's GLSL backend writes of the validated module for `version`
/// and the entry point of `stage` named `name`.
pub uninterp spec fn glsl_backend(
    input: InputView,
    bits: (u64, u64, u64, u64),
    version: GlslVersion,
    stage: PipelineStage,
    name: Seq<char>,
) -> Result<Seq<char>, Seq<char>>;

/// What naga's HLSL backend writes of the validated module for the shader
/// model, the entry point (all of them when none) and the fragment entry
/// point whose inputs are linked.
pub uninterp spec fn hlsl_backend(
    input: InputView,
    bits: (u64, u64, u64, u64),
    model: HlslShaderModel,
    entry: Option<(PipelineStage, Seq<char>)>,
    fragment: Option<Seq<char>>,
) -> Result<Seq<char>, Seq<char>>;

/// What naga's MSL backend writes of the validated module for the entry
/// point (all of them when none).
pub uninterp spec fn msl_backend(
    input: InputView,
    bits: (u64, u64, u64, u64),
    entry: Option<(PipelineStage, Seq<char>)>,
) -> Result<Seq<char>, Seq<char>>;

/// The SPIR-V words that naga's SPIR-V backend writes of the validated
/// module for the entry point (all of them when none).
pub uninterp spec fn spirv_backend(
    input: InputView,
    bits: (u64, u64, u64, u64),
    entry: Option<(PipelineStage, Seq<char>)>,
) -> Result<Seq<u32>, Seq<char>>;

/// The DOT graph that naga's DOT backend writes of the validated module.
pub uninterp spec fn dot_backend(input: InputView, bits: (u64, u64, u64, u64)) -> Result<
    Seq<char>,
    Seq<char>,
>;

/// A module that a frontend built, with what the frontend was given.
pub struct Parsed {
    module: naga::Module,
    input: FrontendInput,
}

/// A failure of naga's WGSL frontend, with the text it was given.
pub struct WgslFailure {
    error: naga::front::wgsl::ParseError,
    text: String,
}

/// The failures of naga's GLSL frontend, with what it was given.
pub struct GlslFailure {
    errors: naga::front::glsl::ParseErrors,
    text: String,
    stage: ShaderStage,
    defines: Vec<(String, String)>,
}

/// A module that naga's validator accepted, with its module info, what the
/// frontend was given and the validator's settings.
pub struct Validated {
    module: naga::Module,
    info: naga::valid::ModuleInfo,
    input: FrontendInput,
    config: ValidatorConfig,
}

/// A failure of naga's validator, with what the frontend was given and the
/// validator's settings.
pub struct ValidationFailure {
    error: naga::WithSpan<naga::valid::ValidationError>,
    input: FrontendInput,
    config: ValidatorConfig,
}

/// naga's stage of the same name as a pipeline stage.
pub struct NagaStageOf {
    naga: NagaStage,
    stage: PipelineStage,
}

/// naga's HLSL shader model of the same name as a shader model.
pub struct NagaModelOf {
    naga: NagaModel,
    model: HlslShaderModel,
}

/// The bits of validator settings.
pub open spec fn config_bits(c: ValidatorConfig) -> (u64, u64, u64, u64) {
    (c.flags as u64, c.capabilities, c.stages as u64, c.operations as u64)
}

/// What the frontend of a parsed module was given.
pub closed spec fn parsed_input(p: Parsed) -> InputView {
    input_view(p.input)
}

/// The entry points of a parsed module.
pub open spec fn parsed_entries(p: Parsed) -> Seq<(PipelineStage, Seq<char>)> {
    input_entries(parsed_input(p))->Some_0
}

/// The text that naga's WGSL frontend refused.
pub closed spec fn wgsl_failure_text(f: WgslFailure) -> Seq<char> {
    f.text@
}

/// What naga's GLSL frontend refused: text, stage and definitions.
pub closed spec fn glsl_failure_input(f: GlslFailure) -> (Seq<char>, ShaderStage, Seq<(Seq<char>, Seq<char>)>) {
    (f.text@, f.stage, defines_view(f.defines@))
}

/// What the frontend of a validated module was given.
pub closed spec fn validated_input(v: Validated) -> InputView {
    input_view(v.input)
}

/// The validator settings that a module was validated with.
pub closed spec fn validated_bits(v: Validated) -> (u64, u64, u64, u64) {
    config_bits(v.config)
}

/// The entry points of a validated module.
pub open spec fn validated_entries(v: Validated) -> Seq<(PipelineStage, Seq<char>)> {
    input_entries(validated_input(v))->Some_0
}

/// What the frontend of a module that the validator refused was given.
pub closed spec fn failure_input(f: ValidationFailure) -> InputView {
    input_view(f.input)
}

/// The validator settings of a refused module.
pub closed spec fn failure_bits(f: ValidationFailure) -> (u64, u64, u64, u64) {
    config_bits(f.config)
}

/// The pipeline stage that a naga stage stands for.
pub closed spec fn stage_of(s: NagaStageOf) -> PipelineStage {
    s.stage
}

/// The shader model that a naga shader model stands for.
pub closed spec fn model_of(m: NagaModelOf) -> HlslShaderModel {
    m.model
}

/// An optional entry point in naga's terms, as plain values.
pub open spec fn naga_entry_view(e: Option<(NagaStageOf, String)>) -> Option<(PipelineStage, Seq<char>)> {
    match e {
        Some((s, n)) => Some((stage_of(s), n@)),
        None => None,
    }
}

/// A text result as plain values.
pub open spec fn text_result(r: Result<String, String>) -> Result<Seq<char>, Seq<char>> {
    match r {
        Ok(t) => Ok(t@),
        Err(m) => Err(m@),
    }
}

/// A validated module was validated with every validation flag, which naga
/// needs before its backends: "If you do not perform full validation,
/// invalid shaders may cause Naga to panic."
pub open spec fn fully_validated(v: Validated) -> bool {
    validated_bits(v).0 == full_flags()
}

/// The parsed module of a validated one, to validate it again.
pub(crate) fn unvalidated(v: Validated) -> (p: Parsed)
    ensures
        parsed_input(p) == validated_input(v),
{
    Parsed { module: v.module, input: v.input }
}

/// The validator settings that a module was validated with.
pub(crate) fn validated_config(v: &Validated) -> (c: ValidatorConfig)
    ensures
        config_bits(c) == validated_bits(*v),
{
    v.config
}

/// The text that the frontend of a parsed module was given; none for SPIR-V.
pub(crate) fn parsed_text(p: &Parsed) -> (r: Option<String>)
    ensures
        match parsed_input(*p) {
            InputView::Wgsl(t) => r is Some && r->Some_0@ == t,
            InputView::Glsl(t, _, _) => r is Some && r->Some_0@ == t,
            InputView::Spv(_) => r is None,
        },
{
    match &p.input {
        FrontendInput::Wgsl(t) => Some(t.clone()),
        FrontendInput::Glsl(t, _, _) => Some(t.clone()),
        FrontendInput::Spv(_) => None,
    }
}

/// The validation flag bits that a module was validated with.
pub(crate) fn validated_flags(v: &Validated) -> (r: u8)
    ensures
        r as u64 == validated_bits(*v).0,
{
    v.config.flags
}

/// Calls `std::str::from_utf8` and copies the text. The result is `Ok`
/// exactly when the bytes are valid UTF-8, and then its text encodes back
/// to those bytes; the error is its `Display` text.
#[verifier::external_body]
pub(crate) fn decode_utf8_text(bytes: &[u8]) -> (r: Result<String, String>)
    ensures
        r is Ok <==> valid_utf8(bytes@),
        r matches Ok(text) ==> vstd::utf8::encode_utf8(text@) == bytes@,
        r matches Err(m) ==> m@ == utf8_error_text(bytes@),
{
    std::str::from_utf8(bytes).map(|text| text.to_owned()).map_err(|e| e.to_string())
}

/// The number of entry points of a validated module:
/// `module.entry_points.len()`. The module is the one that the frontend
/// built of the input kept with it.
#[verifier::external_body]
pub(crate) fn entry_point_count(v: &Validated) -> (n: usize)
    ensures
        n == validated_entries(*v).len(),
{
    v.module.entry_points.len()
}

/// The entry point at `index` of `module.entry_points`: its stage, variant
/// for variant, and a copy of its name.
#[verifier::external_body]
pub(crate) fn entry_point_at(v: &Validated, index: usize) -> (e: EntryPoint)
    requires
        index < validated_entries(*v).len(),
    ensures
        entry_view(e) == validated_entries(*v)[index as int],
{
    let ep = &v.module.entry_points[index];
    let stage = match ep.stage {
        NagaStage::Vertex => PipelineStage::Vertex,
        NagaStage::Task => PipelineStage::Task,
        NagaStage::Mesh => PipelineStage::Mesh,
        NagaStage::Fragment => PipelineStage::Fragment,
        NagaStage::Compute => PipelineStage::Compute,
        NagaStage::RayGeneration => PipelineStage::RayGeneration,
        NagaStage::Miss => PipelineStage::Miss,
        NagaStage::AnyHit => PipelineStage::AnyHit,
        NagaStage::ClosestHit => PipelineStage::ClosestHit,
    };
    EntryPoint { stage, name: ep.name.clone() }
}

/// naga's `ShaderStage` of the same name as `stage`, kept with `stage`.
#[verifier::external_body]
pub(crate) fn to_naga_stage(stage: PipelineStage) -> (r: NagaStageOf)
    ensures
        stage_of(r) == stage,
{
    let naga = match stage {
        PipelineStage::Vertex => NagaStage::Vertex,
        PipelineStage::Task => NagaStage::Task,
        PipelineStage::Mesh => NagaStage::Mesh,
        PipelineStage::Fragment => NagaStage::Fragment,
        PipelineStage::Compute => NagaStage::Compute,
        PipelineStage::RayGeneration => NagaStage::RayGeneration,
        PipelineStage::Miss => NagaStage::Miss,
        PipelineStage::AnyHit => NagaStage::AnyHit,
        PipelineStage::ClosestHit => NagaStage::ClosestHit,
    };
    NagaStageOf { naga, stage }
}

/// naga's `back::hlsl::ShaderModel` of the same name as `model`, kept with `model`.
#[verifier::external_body]
pub(crate) fn to_naga_shader_model(model: HlslShaderModel) -> (r: NagaModelOf)
    ensures
        model_of(r) == model,
{
    let naga = match model {
        HlslShaderModel::V5_0 => NagaModel::V5_0,
        HlslShaderModel::V5_1 => NagaModel::V5_1,
        HlslShaderModel::V6_0 => NagaModel::V6_0,
        HlslShaderModel::V6_1 => NagaModel::V6_1,
        HlslShaderModel::V6_2 => NagaModel::V6_2,
        HlslShaderModel::V6_3 => NagaModel::V6_3,
        HlslShaderModel::V6_4 => NagaModel::V6_4,
        HlslShaderModel::V6_5 => NagaModel::V6_5,
        HlslShaderModel::V6_6 => NagaModel::V6_6,
        HlslShaderModel::V6_7 => NagaModel::V6_7,
        HlslShaderModel::V6_8 => NagaModel::V6_8,
        HlslShaderModel::V6_9 => NagaModel::V6_9,
    };
    NagaModelOf { naga, model }
}

/// Calls `naga::front::wgsl::parse_str`: `Ok` exactly when `wgsl_frontend`
/// gives entry points, and then the module has those; either way the text
/// is kept with the result.
#[verifier::external_body]
pub(crate) fn parse_wgsl(text: String) -> (r: Result<Parsed, WgslFailure>)
    ensures
        r is Ok <==> wgsl_frontend(text@) is Some,
        r matches Ok(p) ==> wgsl_frontend(text@) == Some(parsed_entries(p)) && parsed_input(p)
            == InputView::Wgsl(text@),
        r matches Err(f) ==> wgsl_failure_text(f) == text@,
{
    match naga::front::wgsl::parse_str(&text) {
        Ok(module) => Ok(Parsed { module, input: FrontendInput::Wgsl(text) }),
        Err(error) => Err(WgslFailure { error, text }),
    }
}

/// Calls `ParseError::emit_to_string` on a WGSL failure, against its text.
#[verifier::external_body]
pub(crate) fn wgsl_error_message(f: &WgslFailure) -> (r: String)
    ensures
        r@ == wgsl_error_rendering(wgsl_failure_text(*f)),
{
    f.error.emit_to_string(&f.text)
}

/// Calls `ParseError::labels` on a WGSL failure and copies each span (its
/// `to_range` bounds, `0..0` when undefined) with its description.
#[verifier::external_body]
pub(crate) fn wgsl_error_labels(f: &WgslFailure) -> (r: Vec<SpanText>)
    ensures
        spans_view(r@) == wgsl_error_spans(wgsl_failure_text(*f)),
{
    f.error.labels().map(|(span, message)| {
        let (start, end) = span.to_range().map_or((0, 0), |r| (r.start as u32, r.end as u32));
        SpanText { start, end, message: message.to_owned() }
    }).collect()
}

/// Calls `ParseError::notes` on a WGSL failure and copies them.
#[verifier::external_body]
pub(crate) fn wgsl_error_note_list(f: &WgslFailure) -> (r: Vec<String>)
    ensures
        r@.map_values(|n: String| n@) == wgsl_error_notes(wgsl_failure_text(*f)),
{
    f.error.notes().map(|note| note.to_owned()).collect()
}

/// Asks the GLSL preprocessor of naga's frontend (`pp_rs`) to define `name`
/// as `value` in a fresh preprocessor, and tells whether it accepts:
/// `Preprocessor::add_define` fails only when `value` does not lex.
#[verifier::external_body]
pub(crate) fn define_accepted(name: &str, value: &str) -> (r: bool)
    ensures
        r == pp_define_accepted(name@, value@),
{
    pp_rs::pp::Preprocessor::new("").add_define(name, value).is_ok()
}

/// The definition at `i` is not replaced by a later one of the same name.
pub open spec fn define_in_effect(defines: Seq<(Seq<char>, Seq<char>)>, i: int) -> bool {
    forall|j: int| i < j < defines.len() ==> #[trigger] defines[j].0 != defines[i].0
}

/// Calls naga's GLSL frontend (`Frontend::parse`) with `Options::from` the
/// naga stage of `stage`, its `defines` replaced by the pairs of `defines`.
/// naga's lexer unwraps `add_define` for each definition, so every one in
/// effect must be accepted by the preprocessor. `Ok` exactly when
/// `glsl_frontend` gives entry points, and then the module has those; either
/// way the arguments are kept with the result.
#[verifier::external_body]
pub(crate) fn parse_glsl(text: String, stage: ShaderStage, defines: Vec<(String, String)>) -> (r:
    Result<Parsed, GlslFailure>)
    requires
        forall|i: int|
            0 <= i < defines@.len() && define_in_effect(defines_view(defines@), i)
                ==> pp_define_accepted(#[trigger] defines@[i].0@, defines@[i].1@),
    ensures
        r is Ok <==> glsl_frontend(text@, stage, defines_view(defines@)) is Some,
        r matches Ok(p) ==> glsl_frontend(text@, stage, defines_view(defines@)) == Some(
            parsed_entries(p),
        ) && parsed_input(p) == InputView::Glsl(text@, stage, defines_view(defines@)),
        r matches Err(f) ==> glsl_failure_input(f) == (text@, stage, defines_view(defines@)),
{
    let naga = match stage {
        ShaderStage::Vertex => NagaStage::Vertex,
        ShaderStage::Fragment => NagaStage::Fragment,
        ShaderStage::Compute => NagaStage::Compute,
    };
    let mut options = naga::front::glsl::Options::from(naga);
    options.defines = defines.iter().map(|(k, v)| (k.clone(), v.clone())).collect();
    match naga::front::glsl::Frontend::default().parse(&options, &text) {
        Ok(module) => Ok(Parsed { module, input: FrontendInput::Glsl(text, stage, defines) }),
        Err(errors) => Err(GlslFailure { errors, text, stage, defines }),
    }
}

/// Calls `ParseErrors::emit_to_string` on GLSL failures, against their text.
#[verifier::external_body]
pub(crate) fn glsl_error_message(f: &GlslFailure) -> (r: String)
    ensures
        r@ == glsl_error_rendering(glsl_failure_input(*f).0, glsl_failure_input(*f).1, glsl_failure_input(*f).2),
{
    f.errors.emit_to_string(&f.text)
}

/// Copies the span (`meta`, as `to_range` bounds, `0..0` when undefined) and
/// the `Display` of the kind of each GLSL failure.
#[verifier::external_body]
pub(crate) fn glsl_error_labels(f: &GlslFailure) -> (r: Vec<SpanText>)
    ensures
        spans_view(r@) == glsl_error_spans(glsl_failure_input(*f).0, glsl_failure_input(*f).1, glsl_failure_input(*f).2),
{
    f.errors.errors.iter().map(|err| {
        let (start, end) = err.meta.to_range().map_or((0, 0), |r| (r.start as u32, r.end as u32));
        SpanText { start, end, message: err.kind.to_string() }
    }).collect()
}

/// Calls `naga::front::spv::parse_u8_slice` with default options: `Ok`
/// exactly when `spirv_frontend` gives entry points, and then the module has
/// those and the bytes are kept with it; a failure comes back as its
/// `Display` text.
#[verifier::external_body]
pub(crate) fn parse_spirv(bytes: Vec<u8>) -> (r: Result<Parsed, String>)
    ensures
        r is Ok <==> spirv_frontend(bytes@) is Some,
        r matches Ok(p) ==> spirv_frontend(bytes@) == Some(parsed_entries(p)) && parsed_input(p)
            == InputView::Spv(bytes@),
        r matches Err(m) ==> m@ == spirv_error_text(bytes@),
{
    match naga::front::spv::parse_u8_slice(&bytes, &naga::front::spv::Options::default()) {
        Ok(module) => Ok(Parsed { module, input: FrontendInput::Spv(bytes) }),
        Err(error) => Err(error.to_string()),
    }
}

/// Runs naga's `Validator` over the parsed module, built with `Validator::new`
/// from the flag and capability bits of `config` and given its subgroup stage
/// and operation bits (each taken with `from_bits_retain`). `Ok` exactly
/// when `validator_accepts`; the module, what its frontend was given and the
/// settings are kept with the result.
#[verifier::external_body]
pub(crate) fn validate_module(p: Parsed, config: ValidatorConfig) -> (r: Result<
    Validated,
    ValidationFailure,
>)
    ensures
        r is Ok <==> validator_accepts(parsed_input(p), config_bits(config)),
        r matches Ok(v) ==> validated_input(v) == parsed_input(p) && validated_bits(v)
            == config_bits(config) && validated_entries(v) == parsed_entries(p),
        r matches Err(f) ==> failure_input(f) == parsed_input(p) && failure_bits(f) == config_bits(
            config,
        ),
{
    let result = naga::valid::Validator::new(
        ValidationFlags::from_bits_retain(config.flags),
        Capabilities::from_bits_retain(config.capabilities),
    ).subgroup_stages(ShaderStages::from_bits_retain(config.stages)).subgroup_operations(
        SubgroupOperationSet::from_bits_retain(config.operations),
    ).validate(&p.module);
    match result {
        Ok(info) => Ok(Validated { module: p.module, info, input: p.input, config }),
        Err(error) => Err(ValidationFailure { error, input: p.input, config }),
    }
}

/// The `Display` text of a validation failure.
#[verifier::external_body]
pub(crate) fn validation_error_text(f: &ValidationFailure) -> (r: String)
    ensures
        r@ == validation_error_display(failure_input(*f), failure_bits(*f)),
{
    f.error.to_string()
}

/// Calls `WithSpan::spans` on a validation failure and copies each span
/// (`to_range` bounds, `0..0` when undefined) with its description.
#[verifier::external_body]
pub(crate) fn validation_error_spans(f: &ValidationFailure) -> (r: Vec<SpanText>)
    ensures
        spans_view(r@) == validation_error_span_list(failure_input(*f), failure_bits(*f)),
{
    f.error.spans().map(|(span, message)| {
        let (start, end) = span.to_range().map_or((0, 0), |r| (r.start as u32, r.end as u32));
        SpanText { start, end, message: message.clone() }
    }).collect()
}

/// Calls `naga::back::wgsl::write_string` with empty writer flags; a failure
/// comes back as its `Display` text. Only for fully validated modules.
#[verifier::external_body]
pub(crate) fn write_wgsl(v: &Validated) -> (r: Result<String, String>)
    requires
        fully_validated(*v),
    ensures
        text_result(r) == wgsl_backend(validated_input(*v), validated_bits(*v)),
{
    naga::back::wgsl::write_string(&v.module, &v.info, naga::back::wgsl::WriterFlags::empty())
        .map_err(|e| e.to_string())
}

/// Writes GLSL with naga's `back::glsl::Writer`: default options but for
/// `version` (`Version::Desktop`, or `Version::new_gles` for embedded), the
/// entry point `stage`/`entry_point`, no multiview and default bounds check
/// policies; a failure comes back as its `Display` text. Only for fully
/// validated modules.
#[verifier::external_body]
pub(crate) fn write_glsl(v: &Validated, version: GlslVersion, stage: NagaStageOf, entry_point: String)
    -> (r: Result<String, String>)
    requires
        fully_validated(*v),
    ensures
        text_result(r) == glsl_backend(
            validated_input(*v),
            validated_bits(*v),
            version,
            stage_of(stage),
            entry_point@,
        ),
{
    let version = match version {
        GlslVersion::Desktop(n) => glsl::Version::Desktop(n),
        GlslVersion::Embedded(n) => glsl::Version::new_gles(n),
    };
    let options = glsl::Options { version, ..Default::default() };
    let pipeline = glsl::PipelineOptions { shader_stage: stage.naga, entry_point, multiview: None };
    let mut out = String::new();
    glsl::Writer::new(&mut out, &v.module, &v.info, &options, &pipeline, Default::default())
        .and_then(|mut writer| writer.write()).map_err(|e| e.to_string())?;
    Ok(out)
}

/// Writes HLSL with naga's `back::hlsl::Writer`: default options but for
/// the shader model, the pipeline's entry point, and the inputs of the
/// fragment entry point named `fragment` linked (`FragmentEntryPoint::new`);
/// a failure comes back as its `Display` text. Only for fully validated modules.
#[verifier::external_body]
pub(crate) fn write_hlsl(
    v: &Validated,
    shader_model: NagaModelOf,
    entry_point: Option<(NagaStageOf, String)>,
    fragment: Option<&str>,
) -> (r: Result<String, String>)
    requires
        fully_validated(*v),
    ensures
        text_result(r) == hlsl_backend(
            validated_input(*v),
            validated_bits(*v),
            model_of(shader_model),
            naga_entry_view(entry_point),
            match fragment {
                Some(f) => Some(f@),
                None => None,
            },
        ),
{
    let options = hlsl::Options { shader_model: shader_model.naga, ..Default::default() };
    let pipeline = hlsl::PipelineOptions { entry_point: entry_point.map(|(s, n)| (s.naga, n)) };
    let fragment = fragment.and_then(|name| hlsl::FragmentEntryPoint::new(&v.module, name));
    let mut out = String::new();
    hlsl::Writer::new(&mut out, &options, &pipeline).write(&v.module, &v.info, fragment.as_ref())
        .map_err(|e| e.to_string())?;
    Ok(out)
}

/// Calls `naga::back::msl::write_string` with default options and pipeline
/// options but for the entry point, keeping the text; a failure comes back
/// as its `Display` text. Only for fully validated modules.
#[verifier::external_body]
pub(crate) fn write_msl(v: &Validated, entry_point: Option<(NagaStageOf, String)>) -> (r: Result<
    String,
    String,
>)
    requires
        fully_validated(*v),
    ensures
        text_result(r) == msl_backend(
            validated_input(*v),
            validated_bits(*v),
            naga_entry_view(entry_point),
        ),
{
    let entry_point = entry_point.map(|(s, n)| (s.naga, n));
    let pipeline = msl::PipelineOptions { entry_point, ..Default::default() };
    msl::write_string(&v.module, &v.info, &msl::Options::default(), &pipeline).map(|(out, _)| out)
        .map_err(|e| e.to_string())
}

/// Calls `naga::back::spv::write_vec` with default options and, when an
/// entry point is given, pipeline options for it; a failure comes back as
/// its `Display` text. Only for fully validated modules.
#[verifier::external_body]
pub(crate) fn write_spirv(v: &Validated, entry_point: Option<(NagaStageOf, String)>) -> (r: Result<
    Vec<u32>,
    String,
>)
    requires
        fully_validated(*v),
    ensures
        match r {
            Ok(words) => spirv_backend(
                validated_input(*v),
                validated_bits(*v),
                naga_entry_view(entry_point),
            ) == Ok::<Seq<u32>, Seq<char>>(words@),
            Err(m) => spirv_backend(
                validated_input(*v),
                validated_bits(*v),
                naga_entry_view(entry_point),
            ) == Err::<Seq<u32>, Seq<char>>(m@),
        },
{
    let pipeline = entry_point.map(
        |(s, n)| spv::PipelineOptions { shader_stage: s.naga, entry_point: n },
    );
    spv::write_vec(&v.module, &v.info, &spv::Options::default(), pipeline.as_ref()).map_err(
        |e| e.to_string(),
    )
}

/// Calls `naga::back::dot::write` with the module info and default options;
/// a failure comes back as its `Display` text. Only for fully validated modules.
#[verifier::external_body]
pub(crate) fn write_dot(v: &Validated) -> (r: Result<String, String>)
    requires
        fully_validated(*v),
    ensures
        text_result(r) == dot_backend(validated_input(*v), validated_bits(*v)),
{
    naga::back::dot::write(&v.module, Some(&v.info), naga::back::dot::Options::default()).map_err(
        |e| e.to_string(),
    )
}

} // verus!
