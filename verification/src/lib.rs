//! Shader validation and translation between WGSL, GLSL, SPIR-V, HLSL, MSL
//! and DOT, built on the `naga` shader compiler.
//!
//! Callers name languages, stages and validator settings by strings; the
//! library checks those names, runs naga's frontend, validator and backend,
//! and reports every failure as a diagnostic with source locations.

pub mod compiler;
pub mod diagnostic;
pub mod formats;
pub mod laws;
pub mod output;
pub mod pipeline;
pub mod spans;
pub mod text;
pub mod validation;

pub use diagnostic::{Diagnostic, DiagnosticKind, Label, NagaDiagnostic, NagaLabel};
pub use formats::{
    InputFormat, OutputFormat, PipelineStage, ShaderStage, parse_input_format, parse_output_format,
    parse_shader_stage,
};
pub use output::{
    EntryPoint, GlslVersion, HlslShaderModel, OutputPlan, parse_glsl_version,
    parse_hlsl_shader_model, plan_output, resolve_entry_point, resolve_entry_point_optional,
    words_to_le_bytes,
};
pub use pipeline::{
    ShaderSource, TranslateOptions, TranslateOutput, TranslateResult, ValidationResult,
    naga_version, parse_and_validate, translate, translate_detailed, translate_impl, validate_wgsl,
    validate_wgsl_detailed,
};
pub use spans::{SpanText, push_label, source_location, with_location};
pub use validation::{
    ValidationOptions, ValidatorConfig, capability_name_table, parse_capabilities, parse_flag_list,
    parse_subgroup_operations, parse_subgroup_stages, parse_validation_flags,
    subgroup_operation_name_table, subgroup_stage_name_table, validation_flag_name_table,
    validator_config,
};
