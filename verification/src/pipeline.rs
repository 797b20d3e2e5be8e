//! The whole pipeline: parse a shader, validate it, and hand it to a
//! backend, reporting failures as diagnostics or as thrown messages.

use vstd::prelude::*;
use vstd::string::StringSliceAdditionalSpecFns;
use vstd::utf8::{decode_utf8, encode_utf8, valid_utf8};
use crate::compiler::{
    InputView, NagaStageOf, Validated, decode_utf8_text, define_accepted, define_in_effect,
    defines_view, dot_backend, entry_point_at, entry_point_count, fully_validated,
    glsl_backend, glsl_error_labels, glsl_error_message, glsl_error_rendering, glsl_error_spans,
    glsl_frontend, hlsl_backend, input_entries, msl_backend, naga_entry_view, parse_glsl, parse_spirv,
    parse_wgsl, pp_define_accepted, spirv_backend, spirv_error_text, spirv_frontend,
    to_naga_shader_model, to_naga_stage, utf8_error_text, validate_module,
    validated_bits, validated_config, validated_entries, validated_flags, validated_input,
    parsed_text, unvalidated,
    validation_error_display, validation_error_span_list, validation_error_spans,
    validation_error_text, validator_accepts, wgsl_backend, wgsl_error_labels,
    wgsl_error_message, wgsl_error_note_list, wgsl_error_notes, wgsl_error_rendering,
    wgsl_error_spans, wgsl_frontend, write_dot, write_glsl, write_hlsl, write_msl,
    write_spirv, write_wgsl,
};
use crate::diagnostic::{
    DiagView, Diagnostic, DiagnosticKind, Label, NagaDiagnostic, NagaView, diag_view, exported_view,
    is_usage_error, label_view, labels_view, naga_view, plain_view, strings_view, thrown_view, usage_view,
};
use crate::formats::{
    InputFormat, OutputFormat, PipelineStage, ShaderStage, input_format_error, output_format_error,
    parse_input_format, parse_output_format, parse_shader_stage, pipeline_stage, shader_stage_error,
    spec_input_format, spec_output_format, spec_shader_stage,
};
use crate::output::{
    EntryPoint, OutputPlan, PlannedOutput, entries_view, entry_view, le_bytes, opt_entry_view,
    opt_string_view, plan_view,
    opt_view, plan_output, spec_plan_output, words_to_le_bytes,
};
use crate::spans::{
    SpanText, label_at, labels_for, labels_match, labels_of, located_message, location_column,
    location_line, spans_view, text_bytes,
};
use crate::text::str_equal;
use crate::validation::{
    ValidatorConfig, ValidationOptions, all_validation_flags, full_flags, spec_validator_config, validator_config,
};

verus! {

/// Shader source: text for WGSL and GLSL, raw SPIR-V bytes for SPIR-V.
pub enum ShaderSource {
    Text(String),
    Bytes(Vec<u8>),
}

/// Translated shader: text, except the raw SPIR-V bytes for SPIR-V output.
#[derive(Debug)]
pub enum TranslateOutput {
    Text(String),
    Binary(Vec<u8>),
}

/// Options for [`translate`].
pub struct TranslateOptions {
    /// Input language of `source`: `"wgsl"`, `"glsl"` or `"spv"`.
    pub from: String,
    /// Desired output language: `"wgsl"`, `"glsl"`, `"hlsl"`, `"msl"`, `"spv"` or `"dot"`.
    pub to: String,
    /// Shader source: text for `wgsl`/`glsl`, raw SPIR-V bytes for `spv`.
    pub source: ShaderSource,
    /// Entry-point stage: `"vertex"`, `"fragment"` or `"compute"`. Required
    /// for GLSL input, and when the module has more than one entry point and
    /// the backend needs a single one (`glsl`, `spv`); otherwise the sole
    /// entry point is used.
    pub stage: Option<String>,
    /// Entry-point name. Same resolution rules as `stage`.
    pub entry_point: Option<String>,
    /// GLSL output version, e.g. `"310 es"` (default) or `"450"`.
    pub glsl_version: Option<String>,
    /// HLSL shader model, e.g. `"5_1"` (default), `"6_0"`.
    pub hlsl_shader_model: Option<String>,
    /// Preprocessor definitions for GLSL input (`#define key value` pairs);
    /// a later pair replaces an earlier one with the same key.
    pub defines: Option<Vec<(String, String)>>,
    /// Validator strictness. Defaults to everything enabled. When `flags`
    /// leaves passes out, a module that passes is validated again with all of
    /// them before a backend writes it: naga's backends are written for fully
    /// validated modules.
    pub validation: Option<ValidationOptions>,
}

/// Result of [`validate_wgsl_detailed`].
#[derive(Debug)]
pub struct ValidationResult {
    pub ok: bool,
    pub error: Option<NagaDiagnostic>,
}

/// Result of [`translate_detailed`].
#[derive(Debug)]
pub struct TranslateResult {
    pub ok: bool,
    /// Present when `ok` is true: text, except bytes for `spv` output.
    pub output: Option<TranslateOutput>,
    /// Present when `ok` is false.
    pub error: Option<NagaDiagnostic>,
}

/// The display name of an input language in diagnostics.
pub open spec fn input_form(from: InputFormat) -> Seq<char> {
    match from {
        InputFormat::Wgsl => "WGSL"@,
        InputFormat::Glsl => "GLSL"@,
        InputFormat::Spv => "SPIR-V"@,
    }
}

/// The message for GLSL input without a stage.
pub open spec fn glsl_stage_missing_error() -> Seq<char> {
    "GLSL input requires `stage` (vertex, fragment, or compute)"@
}

/// The labels of the spans `wanted` in the text with bytes `bytes`, each as
/// its line, column, length and description.
pub open spec fn located_labels(wanted: Seq<(u32, u32, Seq<char>)>, bytes: Seq<u8>) -> Seq<
    (int, int, int, Seq<char>),
> {
    wanted.map_values(
        |w: (u32, u32, Seq<char>)|
            (location_line(bytes, w.0), location_column(bytes, w.0), w.1 - w.0, w.2),
    )
}

/// Labels that match their spans are, as plain values, the located spans.
pub proof fn lemma_labels_view(labels: Seq<Label>, bytes: Seq<u8>, wanted: Seq<(u32, u32, Seq<char>)>)
    requires
        labels_match(labels, bytes, wanted),
    ensures
        labels_view(labels) == located_labels(wanted, bytes),
{
    assert forall|i: int| 0 <= i < labels.len() implies #[trigger] labels_view(labels)[i]
        == located_labels(wanted, bytes)[i] by {
        assert(label_at(labels[i], bytes, wanted[i].0, wanted[i].1, wanted[i].2));
    }
    assert(labels_view(labels) =~= located_labels(wanted, bytes));
}

/// The diagnostic for source bytes of the language `form` that are not UTF-8.
pub open spec fn utf8_failure_view(form: Seq<char>, source: Seq<u8>) -> DiagView {
    plain_view(
        DiagnosticKind::Parse,
        form,
        "source is not valid UTF-8: "@ + utf8_error_text(source),
    )
}

/// The message for a preprocessor definition whose value does not lex.
pub open spec fn define_error(name: Seq<char>, value: Seq<char>) -> Seq<char> {
    "invalid `defines` value for '"@ + name + "': '"@ + value
        + "' is not GLSL preprocessor input"@
}

/// The definition at `i` is in effect and the preprocessor refuses it.
pub open spec fn bad_define(defines: Seq<(Seq<char>, Seq<char>)>, i: int) -> bool {
    define_in_effect(defines, i) && !pp_define_accepted(defines[i].0, defines[i].1)
}

/// The first definition at `from` or later that is in effect and that the
/// preprocessor refuses, if any.
pub open spec fn first_bad_define(defines: Seq<(Seq<char>, Seq<char>)>, from: int) -> Option<int>
    decreases defines.len() - from,
{
    if from < 0 || from >= defines.len() {
        None
    } else if bad_define(defines, from) {
        Some(from)
    } else {
        first_bad_define(defines, from + 1)
    }
}

/// Past `from`, no definition in effect is refused when there is no first
/// refused one.
proof fn lemma_no_bad_define(defines: Seq<(Seq<char>, Seq<char>)>, from: int, i: int)
    requires
        0 <= from <= i < defines.len(),
        first_bad_define(defines, from) is None,
    ensures
        !bad_define(defines, i),
    decreases i - from,
{
    if from < i {
        lemma_no_bad_define(defines, from + 1, i);
    }
}

/// The preprocessor definitions of an optional list, as plain values.
pub open spec fn defines_of(defines: Option<&Vec<(String, String)>>) -> Seq<(Seq<char>, Seq<char>)> {
    match defines {
        Some(d) => defines_view(d@),
        None => Seq::empty(),
    }
}

/// Optional validation options taken by value.
pub open spec fn options_of(validation: Option<&ValidationOptions>) -> Option<ValidationOptions> {
    match validation {
        Some(v) => Some(*v),
        None => None,
    }
}

/// What the frontend of `from` is given for `source` (decoded as UTF-8 for
/// text languages), the stage and the definitions (for GLSL).
pub open spec fn frontend_input(
    from: InputFormat,
    source: Seq<u8>,
    stage: Option<ShaderStage>,
    defines: Seq<(Seq<char>, Seq<char>)>,
) -> InputView {
    match from {
        InputFormat::Wgsl => InputView::Wgsl(decode_utf8(source)),
        InputFormat::Glsl => InputView::Glsl(decode_utf8(source), stage->Some_0, defines),
        InputFormat::Spv => InputView::Spv(source),
    }
}

/// The bytes of the text of a frontend input; none for SPIR-V.
pub open spec fn input_text_bytes(input: InputView) -> Option<Seq<u8>> {
    match input {
        InputView::Wgsl(t) => Some(encode_utf8(t)),
        InputView::Glsl(t, _, _) => Some(encode_utf8(t)),
        InputView::Spv(_) => None,
    }
}

/// The diagnostic for a source that its frontend refuses: naga's rendering,
/// the labels of the spans of its errors in the text, and its notes.
pub open spec fn frontend_failure_view(input: InputView) -> DiagView {
    match input {
        InputView::Wgsl(t) => DiagView {
            kind: DiagnosticKind::Parse,
            form: "WGSL"@,
            message: wgsl_error_rendering(t),
            labels: located_labels(
                labels_for(wgsl_error_spans(t), Some(encode_utf8(t))),
                encode_utf8(t),
            ),
            notes: wgsl_error_notes(t),
        },
        InputView::Glsl(t, s, d) => DiagView {
            kind: DiagnosticKind::Parse,
            form: "GLSL"@,
            message: glsl_error_rendering(t, s, d),
            labels: located_labels(
                labels_for(glsl_error_spans(t, s, d), Some(encode_utf8(t))),
                encode_utf8(t),
            ),
            notes: Seq::empty(),
        },
        InputView::Spv(b) => plain_view(DiagnosticKind::Parse, "SPIR-V"@, spirv_error_text(b)),
    }
}

/// The diagnostic for a module that naga's validator refuses: its message
/// with the location of its first span when there is text, and the labels
/// of its spans.
pub open spec fn validation_failure_view(input: InputView, bits: (u64, u64, u64, u64)) -> DiagView {
    let spans = validation_error_span_list(input, bits);
    DiagView {
        kind: DiagnosticKind::Validation,
        form: ""@,
        message: located_message(
            validation_error_display(input, bits),
            spans,
            input_text_bytes(input),
        ),
        labels: match input_text_bytes(input) {
            Some(b) => located_labels(labels_for(spans, Some(b)), b),
            None => Seq::empty(),
        },
        notes: Seq::empty(),
    }
}

/// What parsing `source` as `from` comes to before the validator runs: the
/// diagnostic of the first stop, or what the frontend was given, the entry
/// points of the parsed module and the validator settings. Text that is not
/// UTF-8 stops first; then GLSL input without a stage, and a GLSL definition
/// that the preprocessor refuses; then the frontend decides; then the
/// validation options.
pub open spec fn spec_parse_stage(
    from: InputFormat,
    source: Seq<u8>,
    stage: Option<ShaderStage>,
    defines: Seq<(Seq<char>, Seq<char>)>,
    validation: Option<ValidationOptions>,
) -> Result<(InputView, Seq<(PipelineStage, Seq<char>)>, (u64, u64, u64, u64)), DiagView> {
    if from != InputFormat::Spv && !valid_utf8(source) {
        Err(utf8_failure_view(input_form(from), source))
    } else if from == InputFormat::Glsl && stage is None {
        Err(usage_view(glsl_stage_missing_error()))
    } else if from == InputFormat::Glsl && first_bad_define(defines, 0) is Some {
        let i = first_bad_define(defines, 0)->Some_0;
        Err(usage_view(define_error(defines[i].0, defines[i].1)))
    } else {
        let input = frontend_input(from, source, stage, defines);
        match input_entries(input) {
            None => Err(frontend_failure_view(input)),
            Some(eps) => match spec_validator_config(validation) {
                Err(m) => Err(usage_view(m)),
                Ok(bits) => Ok((input, eps, bits)),
            },
        }
    }
}

/// What parsing and validating `source` as `from` comes to: the diagnostic
/// of the first stop, or what the frontend was given, the entry points of
/// the module and the validator settings.
pub open spec fn spec_validation(
    from: InputFormat,
    source: Seq<u8>,
    stage: Option<ShaderStage>,
    defines: Seq<(Seq<char>, Seq<char>)>,
    validation: Option<ValidationOptions>,
) -> Result<(InputView, Seq<(PipelineStage, Seq<char>)>, (u64, u64, u64, u64)), DiagView> {
    match spec_parse_stage(from, source, stage, defines, validation) {
        Err(d) => Err(d),
        Ok((input, eps, bits)) => if validator_accepts(input, bits) {
            Ok((input, eps, bits))
        } else {
            Err(validation_failure_view(input, bits))
        },
    }
}

/// The bytes of a shader source: the UTF-8 encoding of text, or the bytes.
pub open spec fn source_bytes_of(source: ShaderSource) -> Seq<u8> {
    match source {
        ShaderSource::Text(t) => encode_utf8(t@),
        ShaderSource::Bytes(b) => b@,
    }
}

/// The bytes of a shader source.
pub fn source_bytes(source: &ShaderSource) -> (r: Vec<u8>)
    ensures
        r@ == source_bytes_of(*source),
{
    match source {
        ShaderSource::Text(t) => t.as_str().as_bytes_vec(),
        ShaderSource::Bytes(b) => b.clone(),
    }
}

/// The text of source bytes, or the parse error of `form` for bytes that
/// are not UTF-8.
pub fn decode_text(source: &[u8], form: &'static str) -> (r: Result<String, Diagnostic>)
    ensures
        r is Ok <==> valid_utf8(source@),
        r matches Ok(t) ==> t@ == decode_utf8(source@),
        r matches Err(d) ==> diag_view(d) == utf8_failure_view(form@, source@),
{
    match decode_utf8_text(source) {
        Ok(text) => {
            proof {
                vstd::utf8::encode_utf8_decode_utf8(text@);
            }
            Ok(text)
        },
        Err(detail) => {
            let mut m = String::from_str("source is not valid UTF-8: ");
            m.append(detail.as_str());
            Err(Diagnostic::parse(form, m))
        },
    }
}

/// A copy of a list of preprocessor definitions.
fn copy_defines(defines: &Vec<(String, String)>) -> (r: Vec<(String, String)>)
    ensures
        defines_view(r@) == defines_view(defines@),
{
    let mut r: Vec<(String, String)> = Vec::new();
    let n = defines.len();
    let mut i: usize = 0;
    while i < n
        invariant
            n == defines@.len(),
            i <= n,
            defines_view(r@) =~= defines_view(defines@).take(i as int),
        decreases n - i,
    {
        let pair = (defines[i].0.clone(), defines[i].1.clone());
        let ghost before = r@;
        r.push(pair);
        assert(r@ == before.push(pair));
        assert(defines_view(r@) =~= defines_view(before).push((pair.0@, pair.1@)));
        assert(defines_view(r@) =~= defines_view(defines@).take(i + 1));
        i = i + 1;
    }
    assert(defines_view(defines@).take(n as int) =~= defines_view(defines@));
    r
}

/// Whether the definition at `i` is replaced by a later one of the same name.
fn define_replaced(defines: &Vec<(String, String)>, i: usize) -> (r: bool)
    requires
        i < defines@.len(),
    ensures
        r == !define_in_effect(defines_view(defines@), i as int),
{
    let ghost d = defines_view(defines@);
    let n = defines.len();
    let mut j: usize = i + 1;
    while j < n
        invariant
            n == defines@.len(),
            i < j <= n,
            d == defines_view(defines@),
            forall|k: int| i < k < j ==> #[trigger] d[k].0 != d[i as int].0,
        decreases n - j,
    {
        if str_equal(defines[j].0.as_str(), defines[i].0.as_str()) {
            assert(d[j as int].0 == d[i as int].0);
            return true;
        }
        assert(d[j as int].0 != d[i as int].0);
        j = j + 1;
    }
    false
}

/// Checks that the preprocessor accepts every definition in effect: the
/// first one that it refuses is a usage error.
pub fn check_defines(defines: &Vec<(String, String)>) -> (r: Result<(), Diagnostic>)
    ensures
        match first_bad_define(defines_view(defines@), 0) {
            None => r is Ok,
            Some(i) => r is Err && is_usage_error(
                r->Err_0,
                define_error(defines_view(defines@)[i].0, defines_view(defines@)[i].1),
            ),
        },
{
    let ghost d = defines_view(defines@);
    let n = defines.len();
    let mut i: usize = 0;
    while i < n
        invariant
            n == defines@.len(),
            i <= n,
            d == defines_view(defines@),
            forall|k: int| 0 <= k < i ==> !bad_define(d, k),
            first_bad_define(d, 0) == first_bad_define(d, i as int),
        decreases n - i,
    {
        let replaced = define_replaced(defines, i);
        if !replaced && !define_accepted(defines[i].0.as_str(), defines[i].1.as_str()) {
            assert(bad_define(d, i as int));
            let mut m = String::from_str("invalid `defines` value for '");
            m.append(defines[i].0.as_str());
            m.append("': '");
            m.append(defines[i].1.as_str());
            m.append("' is not GLSL preprocessor input");
            return Err(Diagnostic::usage(m));
        }
        assert(!bad_define(d, i as int));
        assert(first_bad_define(d, i as int) == first_bad_define(d, i + 1));
        i = i + 1;
    }
    Ok(())
}

/// The diagnostic of a frontend failure: its rendering, the labels of its
/// spans in the text, and its notes.
pub fn frontend_diagnostic(
    form: &'static str,
    message: String,
    spans: &Vec<SpanText>,
    notes: Vec<String>,
    text: &str,
) -> (d: Diagnostic)
    ensures
        diag_view(d) == (DiagView {
            kind: DiagnosticKind::Parse,
            form: form@,
            message: message@,
            labels: located_labels(
                labels_for(spans_view(spans@), Some(text.spec_bytes())),
                text.spec_bytes(),
            ),
            notes: strings_view(notes@),
        }),
{
    let labels = labels_of(spans, Some(text));
    let d = Diagnostic { kind: DiagnosticKind::Parse, form, message, labels, notes };
    proof {
        lemma_labels_view(
            d.labels@,
            text.spec_bytes(),
            labels_for(spans_view(spans@), Some(text.spec_bytes())),
        );
    }
    d
}

/// The diagnostic of a validation failure: its message with the location of
/// its first span when there is text, and the labels of its spans.
pub fn validation_failure(message: String, spans: &Vec<SpanText>, text: Option<&str>) -> (d:
    Diagnostic)
    ensures
        diag_view(d) == (DiagView {
            kind: DiagnosticKind::Validation,
            form: ""@,
            message: located_message(message@, spans_view(spans@), text_bytes(text)),
            labels: match text_bytes(text) {
                Some(b) => located_labels(labels_for(spans_view(spans@), Some(b)), b),
                None => Seq::empty(),
            },
            notes: Seq::empty(),
        }),
{
    let labels = labels_of(spans, text);
    let message = crate::spans::with_location(message, spans, text);
    let d = Diagnostic {
        kind: DiagnosticKind::Validation,
        form: "",
        message,
        labels,
        notes: Vec::new(),
    };
    proof {
        if let Some(b) = text_bytes(text) {
            lemma_labels_view(d.labels@, b, labels_for(spans_view(spans@), text_bytes(text)));
        } else {
            assert(diag_view(d).labels =~= Seq::<(int, int, int, Seq<char>)>::empty());
        }
        assert(diag_view(d).notes =~= Seq::<Seq<char>>::empty());
    }
    d
}

fn text_ref(text: &Option<String>) -> (r: Option<&str>)
    ensures
        match text {
            Some(t) => r is Some && r->Some_0@ == t@,
            None => r is None,
        },
{
    match text {
        Some(t) => Some(t.as_str()),
        None => None,
    }
}

fn validation_ref(validation: &Option<ValidationOptions>) -> (r: Option<&ValidationOptions>)
    ensures
        options_of(r) == *validation,
{
    match validation {
        Some(v) => Some(v),
        None => None,
    }
}

/// Parses `source` as `from` and validates the module with the settings
/// that `validation` selects.
///
/// Text input that is not UTF-8 fails first; then GLSL input without a stage
/// or with a definition that the preprocessor refuses; then the frontend
/// decides, and after it the validation options and the validator.
pub fn parse_and_validate(
    from: InputFormat,
    source: &[u8],
    stage: Option<ShaderStage>,
    defines: Option<&Vec<(String, String)>>,
    validation: Option<&ValidationOptions>,
) -> (r: Result<Validated, Diagnostic>)
    ensures
        match spec_validation(from, source@, stage, defines_of(defines), options_of(validation)) {
            Err(dv) => r is Err && diag_view(r->Err_0) == dv,
            Ok((input, eps, bits)) => r is Ok && validated_input(r->Ok_0) == input
                && validated_bits(r->Ok_0) == bits && validated_entries(r->Ok_0) == eps,
        },
{
    let ghost input = frontend_input(from, source@, stage, defines_of(defines));
    let (parsed, text): (crate::compiler::Parsed, Option<String>) = match from {
        InputFormat::Wgsl => {
            let text = decode_text(source, "WGSL")?;
            match parse_wgsl(text.clone()) {
                Ok(parsed) => (parsed, Some(text)),
                Err(failure) => {
                    let message = wgsl_error_message(&failure);
                    let spans = wgsl_error_labels(&failure);
                    let notes = wgsl_error_note_list(&failure);
                    return Err(frontend_diagnostic("WGSL", message, &spans, notes, text.as_str()));
                },
            }
        },
        InputFormat::Glsl => {
            let text = decode_text(source, "GLSL")?;
            let stage = match stage {
                Some(stage) => stage,
                None => {
                    return Err(
                        Diagnostic::usage(
                            String::from_str(
                                "GLSL input requires `stage` (vertex, fragment, or compute)",
                            ),
                        ),
                    );
                },
            };
            let list: Vec<(String, String)> = match defines {
                Some(d) => copy_defines(d),
                None => Vec::new(),
            };
            assert(defines_view(list@) =~= defines_of(defines));
            check_defines(&list)?;
            proof {
                assert forall|i: int|
                    0 <= i < list@.len() && define_in_effect(defines_view(list@), i) implies
                    pp_define_accepted(#[trigger] list@[i].0@, list@[i].1@) by {
                    lemma_no_bad_define(defines_view(list@), 0, i);
                }
            }
            match parse_glsl(text.clone(), stage, list) {
                Ok(parsed) => (parsed, Some(text)),
                Err(failure) => {
                    let message = glsl_error_message(&failure);
                    let spans = glsl_error_labels(&failure);
                    assert(strings_view(Seq::<String>::empty()) =~= Seq::<Seq<char>>::empty());
                    return Err(
                        frontend_diagnostic("GLSL", message, &spans, Vec::new(), text.as_str()),
                    );
                },
            }
        },
        InputFormat::Spv => {
            let mut bytes: Vec<u8> = Vec::new();
            bytes.extend_from_slice(source);
            assert(bytes@ =~= source@);
            match parse_spirv(bytes) {
                Ok(parsed) => (parsed, None),
                Err(detail) => {
                    return Err(Diagnostic::parse("SPIR-V", detail));
                },
            }
        },
    };
    let config = validator_config(validation)?;
    match validate_module(parsed, config) {
        Ok(validated) => Ok(validated),
        Err(failure) => {
            let message = validation_error_text(&failure);
            let spans = validation_error_spans(&failure);
            Err(validation_failure(message, &spans, text_ref(&text)))
        },
    }
}

/// The entry points of a validated module, in order.
pub fn module_entry_point_list(v: &Validated) -> (eps: Vec<EntryPoint>)
    ensures
        entries_view(eps@) == validated_entries(*v),
{
    let n = entry_point_count(v);
    let mut eps: Vec<EntryPoint> = Vec::new();
    let mut i: usize = 0;
    while i < n
        invariant
            n == validated_entries(*v).len(),
            i <= n,
            entries_view(eps@) == validated_entries(*v).take(i as int),
        decreases n - i,
    {
        let e = entry_point_at(v, i);
        let ghost before = eps@;
        eps.push(e);
        assert(entries_view(eps@) =~= entries_view(before).push(entry_view(e)));
        assert(entries_view(eps@) =~= validated_entries(*v).take(i + 1));
        i = i + 1;
    }
    assert(validated_entries(*v).take(n as int) =~= validated_entries(*v));
    eps
}

/// The entry point in naga's terms: the same stage and name.
fn naga_entry(entry: Option<(PipelineStage, String)>) -> (r: Option<(NagaStageOf, String)>)
    ensures
        naga_entry_view(r) == opt_entry_view(entry),
{
    match entry {
        Some((stage, name)) => Some((to_naga_stage(stage), name)),
        None => None,
    }
}

/// The diagnostic of a failure of the backend of the language named `form`.
pub open spec fn backend_view(form: Seq<char>, message: Seq<char>) -> DiagView {
    plain_view(DiagnosticKind::Backend, form, message)
}

fn backend_failure(form: &'static str, message: String) -> (d: Diagnostic)
    ensures
        diag_view(d) == backend_view(form@, message@),
{
    let d = Diagnostic {
        kind: DiagnosticKind::Backend,
        form,
        message,
        labels: Vec::new(),
        notes: Vec::new(),
    };
    assert(diag_view(d).labels =~= Seq::<(int, int, int, Seq<char>)>::empty());
    assert(diag_view(d).notes =~= Seq::<Seq<char>>::empty());
    d
}

/// Validator settings with every validation pass and the other settings of `bits`.
pub open spec fn full_bits(bits: (u64, u64, u64, u64)) -> (u64, u64, u64, u64) {
    (full_flags(), bits.1, bits.2, bits.3)
}

/// A module validated with every validation pass, which naga's backends
/// need: the module itself when its validation ran them all; else the module
/// validated again with all of them and the same other settings, or the
/// validation failure of that second run.
pub fn fully_validate(v: Validated) -> (r: Result<Validated, Diagnostic>)
    ensures
        validated_bits(v).0 == full_flags() ==> r == Ok::<Validated, Diagnostic>(v),
        validated_bits(v).0 != full_flags() && validator_accepts(
            validated_input(v),
            full_bits(validated_bits(v)),
        ) ==> r is Ok && validated_input(r->Ok_0) == validated_input(v) && validated_bits(r->Ok_0)
            == full_bits(validated_bits(v)),
        validated_bits(v).0 != full_flags() && !validator_accepts(
            validated_input(v),
            full_bits(validated_bits(v)),
        ) ==> r is Err && diag_view(r->Err_0) == validation_failure_view(
            validated_input(v),
            full_bits(validated_bits(v)),
        ),
{
    if validated_flags(&v) == all_validation_flags() {
        return Ok(v);
    }
    let config = validated_config(&v);
    let full = ValidatorConfig { flags: all_validation_flags(), ..config };
    let parsed = unvalidated(v);
    let text = parsed_text(&parsed);
    match validate_module(parsed, full) {
        Ok(validated) => Ok(validated),
        Err(failure) => {
            let message = validation_error_text(&failure);
            let spans = validation_error_spans(&failure);
            Err(validation_failure(message, &spans, text_ref(&text)))
        },
    }
}

/// Translated output as plain values.
pub enum OutputView {
    Text(Seq<char>),
    Binary(Seq<u8>),
}

/// Translated output as plain values.
pub open spec fn output_view(o: TranslateOutput) -> OutputView {
    match o {
        TranslateOutput::Text(t) => OutputView::Text(t@),
        TranslateOutput::Binary(b) => OutputView::Binary(b@),
    }
}

/// An outcome of the pipeline as plain values.
pub open spec fn outcome_view(r: Result<TranslateOutput, Diagnostic>) -> Result<OutputView, DiagView> {
    match r {
        Ok(o) => Ok(output_view(o)),
        Err(d) => Err(diag_view(d)),
    }
}

/// The outcome of a text backend of the language named `form`.
pub open spec fn text_outcome(r: Result<Seq<char>, Seq<char>>, form: Seq<char>) -> Result<
    OutputView,
    DiagView,
> {
    match r {
        Ok(t) => Ok(OutputView::Text(t)),
        Err(m) => Err(backend_view(form, m)),
    }
}

/// What the backend that `plan` names writes of the module that a frontend
/// made of `input` and the validator accepted with `bits`: text, the
/// SPIR-V words as little-endian bytes, or a backend failure.
pub open spec fn backend_outcome(
    input: InputView,
    bits: (u64, u64, u64, u64),
    plan: PlannedOutput,
) -> Result<OutputView, DiagView> {
    match plan {
        PlannedOutput::Wgsl => text_outcome(wgsl_backend(input, bits), "WGSL"@),
        PlannedOutput::Glsl { version, single_entry } => text_outcome(
            glsl_backend(input, bits, version, single_entry.0, single_entry.1),
            "GLSL"@,
        ),
        PlannedOutput::Hlsl { shader_model, entry, fragment } => text_outcome(
            hlsl_backend(input, bits, shader_model, entry, fragment),
            "HLSL"@,
        ),
        PlannedOutput::Msl { entry } => text_outcome(msl_backend(input, bits, entry), "MSL"@),
        PlannedOutput::Spv { entry } => match spirv_backend(input, bits, entry) {
            Ok(words) => Ok(OutputView::Binary(le_bytes(words))),
            Err(m) => Err(backend_view("SPIR-V"@, m)),
        },
        PlannedOutput::Dot => text_outcome(dot_backend(input, bits), "DOT"@),
    }
}

/// Hands a fully validated module to the backend that `plan` names: the
/// output is what that backend writes (SPIR-V words as little-endian
/// bytes), a failure is a backend diagnostic of its language.
pub fn run_backend(v: &Validated, plan: OutputPlan) -> (r: Result<TranslateOutput, Diagnostic>)
    requires
        fully_validated(*v),
    ensures
        outcome_view(r) == backend_outcome(validated_input(*v), validated_bits(*v), plan_view(plan)),
{
    match plan {
        OutputPlan::Wgsl => match write_wgsl(v) {
            Ok(out) => Ok(TranslateOutput::Text(out)),
            Err(e) => Err(backend_failure("WGSL", e)),
        },
        OutputPlan::Glsl { version, stage, entry_name } => match write_glsl(
            v,
            version,
            to_naga_stage(stage),
            entry_name,
        ) {
            Ok(out) => Ok(TranslateOutput::Text(out)),
            Err(e) => Err(backend_failure("GLSL", e)),
        },
        OutputPlan::Hlsl { shader_model, entry_point, fragment } => {
            let fragment_name: Option<&str> = match &fragment {
                Some(name) => Some(name.as_str()),
                None => None,
            };
            match write_hlsl(
                v,
                to_naga_shader_model(shader_model),
                naga_entry(entry_point),
                fragment_name,
            ) {
                Ok(out) => Ok(TranslateOutput::Text(out)),
                Err(e) => Err(backend_failure("HLSL", e)),
            }
        },
        OutputPlan::Msl { entry_point } => match write_msl(v, naga_entry(entry_point)) {
            Ok(out) => Ok(TranslateOutput::Text(out)),
            Err(e) => Err(backend_failure("MSL", e)),
        },
        OutputPlan::Spv { entry_point } => match write_spirv(v, naga_entry(entry_point)) {
            Ok(words) => {
                let bytes = words_to_le_bytes(&words);
                Ok(TranslateOutput::Binary(bytes))
            },
            Err(e) => Err(backend_failure("SPIR-V", e)),
        },
        OutputPlan::Dot => match write_dot(v) {
            Ok(out) => Ok(TranslateOutput::Text(out)),
            Err(e) => Err(backend_failure("DOT", e)),
        },
    }
}

} // verus!

verus! {

/// The stage that an optional stage name selects, or the message for a name
/// that is not one.
pub open spec fn stage_choice(stage: Option<String>) -> Result<Option<ShaderStage>, Seq<char>> {
    match stage {
        None => Ok(None),
        Some(s) => match spec_shader_stage(s@) {
            Some(v) => Ok(Some(v)),
            None => Err(shader_stage_error(s@)),
        },
    }
}

/// The message of the first option of a translation that does not name a
/// language or stage, checked in the order input language, output language,
/// stage; nothing when all of them are good.
pub open spec fn option_error(options: TranslateOptions) -> Option<Seq<char>> {
    if spec_input_format(options.from@) is None {
        Some(input_format_error(options.from@))
    } else if spec_output_format(options.to@) is None {
        Some(output_format_error(options.to@))
    } else {
        match stage_choice(options.stage) {
            Err(m) => Some(m),
            Ok(_) => None,
        }
    }
}

fn str_ref(s: &Option<String>) -> (r: Option<&str>)
    ensures
        opt_view(r) == opt_string_view(*s),
{
    match s {
        Some(t) => Some(t.as_str()),
        None => None,
    }
}

fn defines_ref(defines: &Option<Vec<(String, String)>>) -> (r: Option<&Vec<(String, String)>>)
    ensures
        defines_of(r) == match defines {
            Some(d) => defines_view(d@),
            None => Seq::<(Seq<char>, Seq<char>)>::empty(),
        },
{
    match defines {
        Some(d) => Some(d),
        None => None,
    }
}

/// What the options ask the backend to write for a module with the entry
/// points `eps`, or the usage message why they cannot.
pub open spec fn translation_plan(
    options: TranslateOptions,
    eps: Seq<(PipelineStage, Seq<char>)>,
) -> Result<PlannedOutput, Seq<char>> {
    spec_plan_output(
        spec_output_format(options.to@)->Some_0,
        stage_choice(options.stage)->Ok_0,
        opt_string_view(options.entry_point),
        opt_string_view(options.glsl_version),
        opt_string_view(options.hlsl_shader_model),
        eps,
    )
}

/// What translating with `options` comes to. The options that name the
/// languages and the stage are checked first; then the source is decoded,
/// parsed and validated with the caller's settings; then, when those leave
/// validation passes out, the module is validated again with all of them
/// (naga's backends need that); then the entry point, version and shader
/// model are chosen from the module's entry points; then the backend writes.
pub open spec fn spec_translation(options: TranslateOptions) -> Result<OutputView, DiagView> {
    match option_error(options) {
        Some(m) => Err(usage_view(m)),
        None => match spec_validation(
            spec_input_format(options.from@)->Some_0,
            source_bytes_of(options.source),
            stage_choice(options.stage)->Ok_0,
            match options.defines {
                Some(d) => defines_view(d@),
                None => Seq::empty(),
            },
            options.validation,
        ) {
            Err(d) => Err(d),
            Ok((input, eps, bits)) => if bits.0 != full_flags() && !validator_accepts(
                input,
                full_bits(bits),
            ) {
                Err(validation_failure_view(input, full_bits(bits)))
            } else {
                match translation_plan(options, eps) {
                    Err(m) => Err(usage_view(m)),
                    Ok(plan) => backend_outcome(input, full_bits(bits), plan),
                }
            },
        },
    }
}

/// Translates a shader from one language to another: the outcome is
/// exactly [`spec_translation`].
pub fn translate_impl(options: TranslateOptions) -> (r: Result<TranslateOutput, Diagnostic>)
    ensures
        outcome_view(r) == spec_translation(options),
{
    let from = parse_input_format(options.from.as_str())?;
    let to = parse_output_format(options.to.as_str())?;
    let bytes = source_bytes(&options.source);
    let stage = match &options.stage {
        Some(s) => Some(parse_shader_stage(s.as_str())?),
        None => None,
    };
    let validated = parse_and_validate(
        from,
        bytes.as_slice(),
        stage,
        defines_ref(&options.defines),
        validation_ref(&options.validation),
    )?;
    let validated = fully_validate(validated)?;
    let eps = module_entry_point_list(&validated);
    let plan = plan_output(
        to,
        stage,
        str_ref(&options.entry_point),
        str_ref(&options.glsl_version),
        str_ref(&options.hlsl_shader_model),
        &eps,
    )?;
    run_backend(&validated, plan)
}

/// What the throwing API reports of an outcome: the value, or the thrown
/// message of the diagnostic.
pub fn thrown_outcome<T>(outcome: Result<T, Diagnostic>) -> (r: Result<T, String>)
    ensures
        outcome matches Ok(v) ==> r == Ok::<T, String>(v),
        outcome matches Err(d) ==> r is Err && r->Err_0@ == thrown_view(diag_view(d)),
{
    match outcome {
        Ok(v) => Ok(v),
        Err(d) => Err(d.thrown_message()),
    }
}

/// What the throwing API reports of an outcome of the pipeline, as plain values.
pub open spec fn thrown_of(o: Result<OutputView, DiagView>) -> Result<OutputView, Seq<char>> {
    match o {
        Ok(out) => Ok(out),
        Err(d) => Err(thrown_view(d)),
    }
}

/// A result of the throwing API as plain values.
pub open spec fn thrown_result_view(r: Result<TranslateOutput, String>) -> Result<OutputView, Seq<char>> {
    match r {
        Ok(o) => Ok(output_view(o)),
        Err(m) => Err(m@),
    }
}

/// What the detailed API reports of an outcome of the pipeline, as plain
/// values: whether it is `ok`, the output and the diagnostic.
pub open spec fn detailed_of(o: Result<OutputView, DiagView>) -> (bool, Option<OutputView>, Option<NagaView>) {
    match o {
        Ok(out) => (true, Some(out), None),
        Err(d) => (false, None, Some(exported_view(d))),
    }
}

/// A result of the detailed API as plain values.
pub open spec fn detailed_view(r: TranslateResult) -> (bool, Option<OutputView>, Option<NagaView>) {
    (
        r.ok,
        match r.output {
            Some(o) => Some(output_view(o)),
            None => None,
        },
        match r.error {
            Some(n) => Some(naga_view(n)),
            None => None,
        },
    )
}

/// What the detailed API reports of a translation outcome: `ok` with the
/// output, or not `ok` with the diagnostic as callers see it.
pub fn detailed_translation(outcome: Result<TranslateOutput, Diagnostic>) -> (r: TranslateResult)
    ensures
        detailed_view(r) == detailed_of(outcome_view(outcome)),
{
    match outcome {
        Ok(output) => TranslateResult { ok: true, output: Some(output), error: None },
        Err(diagnostic) => TranslateResult {
            ok: false,
            output: None,
            error: Some(diagnostic.into_napi()),
        },
    }
}

/// What the detailed API reports of a validation outcome: `ok`, or not `ok`
/// with the diagnostic as callers see it.
pub fn detailed_validation(outcome: Result<(), Diagnostic>) -> (r: ValidationResult)
    ensures
        r.ok == outcome is Ok,
        outcome is Ok ==> r.error is None,
        outcome matches Err(d) ==> r.error matches Some(n) && naga_view(n) == exported_view(
            diag_view(d),
        ),
{
    match outcome {
        Ok(_) => ValidationResult { ok: true, error: None },
        Err(diagnostic) => ValidationResult { ok: false, error: Some(diagnostic.into_napi()) },
    }
}

/// Translates a shader, reporting a failure as the message of the error
/// that the throwing API raises.
pub fn translate(options: TranslateOptions) -> (r: Result<TranslateOutput, String>)
    ensures
        thrown_result_view(r) == thrown_of(spec_translation(options)),
{
    thrown_outcome(translate_impl(options))
}

/// Translates a shader without failing: `ok` with the output, or not `ok`
/// with a structured diagnostic.
pub fn translate_detailed(options: TranslateOptions) -> (r: TranslateResult)
    ensures
        detailed_view(r) == detailed_of(spec_translation(options)),
{
    detailed_translation(translate_impl(options))
}

/// What parsing and validating WGSL `source` with `validation` comes to:
/// nothing, or the diagnostic of the first stop.
pub open spec fn spec_wgsl_check(source: Seq<char>, validation: Option<ValidationOptions>) -> Result<
    (),
    DiagView,
> {
    match spec_validation(InputFormat::Wgsl, encode_utf8(source), None, Seq::empty(), validation) {
        Ok(_) => Ok(()),
        Err(d) => Err(d),
    }
}

/// Parses and validates WGSL text with the validation options given.
fn wgsl_outcome(source: &String, validation: &Option<ValidationOptions>) -> (r: Result<
    (),
    Diagnostic,
>)
    ensures
        match spec_wgsl_check(source@, *validation) {
            Ok(_) => r is Ok,
            Err(d) => r is Err && diag_view(r->Err_0) == d,
        },
{
    let bytes = source.as_str().as_bytes();
    let v = validation_ref(validation);
    assert(defines_of(None) =~= Seq::<(Seq<char>, Seq<char>)>::empty());
    match parse_and_validate(InputFormat::Wgsl, bytes, None, None, v) {
        Ok(_) => Ok(()),
        Err(d) => Err(d),
    }
}

/// Parses and validates a WGSL shader, reporting a failure as the message
/// of the error that the throwing API raises.
pub fn validate_wgsl(source: String, validation: Option<ValidationOptions>) -> (r: Result<(), String>)
    ensures
        match spec_wgsl_check(source@, validation) {
            Ok(_) => r is Ok,
            Err(d) => r is Err && r->Err_0@ == thrown_view(d),
        },
{
    thrown_outcome(wgsl_outcome(&source, &validation))
}

/// Parses and validates a WGSL shader without failing: `ok`, or not `ok`
/// with a structured diagnostic.
pub fn validate_wgsl_detailed(source: String, validation: Option<ValidationOptions>) -> (r:
    ValidationResult)
    ensures
        match spec_wgsl_check(source@, validation) {
            Ok(_) => r.ok && r.error is None,
            Err(d) => !r.ok && (r.error matches Some(n) && naga_view(n) == exported_view(d)),
        },
{
    detailed_validation(wgsl_outcome(&source, &validation))
}

/// Version of the wrapped `naga` crate.
pub fn naga_version() -> (s: String)
    ensures
        s@ == "30.0.1"@,
{
    String::from_str("30.0.1")
}

} // verus!
