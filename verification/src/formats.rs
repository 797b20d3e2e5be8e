//! The shader languages and pipeline stages that callers name by string,
//! and the parsing of those names.

use vstd::prelude::*;
use crate::diagnostic::{Diagnostic, is_usage_error};
use crate::text::str_equal;

verus! {

/// Shader language accepted as *input*: `"wgsl"`, `"glsl"`, or `"spv"`.
#[derive(Debug, Clone, Copy, PartialEq, Eq, Structural)]
pub enum InputFormat {
    Wgsl,
    Glsl,
    Spv,
}

/// Shader language produced as *output*.
#[derive(Debug, Clone, Copy, PartialEq, Eq, Structural)]
pub enum OutputFormat {
    Wgsl,
    Glsl,
    Hlsl,
    Msl,
    Spv,
    Dot,
}

/// Pipeline stage of an entry point, as callers name it.
#[derive(Debug, Clone, Copy, PartialEq, Eq, Structural)]
pub enum ShaderStage {
    Vertex,
    Fragment,
    Compute,
}

/// Every pipeline stage that a shader module's entry point can have.
#[derive(Debug, Clone, Copy, PartialEq, Eq, Structural)]
pub enum PipelineStage {
    Vertex,
    Task,
    Mesh,
    Fragment,
    Compute,
    RayGeneration,
    Miss,
    AnyHit,
    ClosestHit,
}

/// The input language named by `s`, if any.
pub open spec fn spec_input_format(s: Seq<char>) -> Option<InputFormat> {
    if s == "wgsl"@ {
        Some(InputFormat::Wgsl)
    } else if s == "glsl"@ {
        Some(InputFormat::Glsl)
    } else if s == "spv"@ {
        Some(InputFormat::Spv)
    } else {
        None
    }
}

/// The output language named by `s`, if any.
pub open spec fn spec_output_format(s: Seq<char>) -> Option<OutputFormat> {
    if s == "wgsl"@ {
        Some(OutputFormat::Wgsl)
    } else if s == "glsl"@ {
        Some(OutputFormat::Glsl)
    } else if s == "hlsl"@ {
        Some(OutputFormat::Hlsl)
    } else if s == "msl"@ {
        Some(OutputFormat::Msl)
    } else if s == "spv"@ {
        Some(OutputFormat::Spv)
    } else if s == "dot"@ {
        Some(OutputFormat::Dot)
    } else {
        None
    }
}

/// The pipeline stage named by `s`, if any.
pub open spec fn spec_shader_stage(s: Seq<char>) -> Option<ShaderStage> {
    if s == "vertex"@ {
        Some(ShaderStage::Vertex)
    } else if s == "fragment"@ {
        Some(ShaderStage::Fragment)
    } else if s == "compute"@ {
        Some(ShaderStage::Compute)
    } else {
        None
    }
}

/// The message for an unknown input language `s`.
pub open spec fn input_format_error(s: Seq<char>) -> Seq<char> {
    "invalid `from` '"@ + s + "'; expected one of \"wgsl\", \"glsl\", \"spv\""@
}

/// The message for an unknown output language `s`.
pub open spec fn output_format_error(s: Seq<char>) -> Seq<char> {
    "invalid `to` '"@ + s
        + "'; expected one of \"wgsl\", \"glsl\", \"hlsl\", \"msl\", \"spv\", \"dot\""@
}

/// The message for an unknown stage `s`.
pub open spec fn shader_stage_error(s: Seq<char>) -> Seq<char> {
    "invalid `stage` '"@ + s + "'; expected one of \"vertex\", \"fragment\", \"compute\""@
}

/// The full pipeline stage of a stage that callers can name.
pub open spec fn spec_pipeline_stage(stage: ShaderStage) -> PipelineStage {
    match stage {
        ShaderStage::Vertex => PipelineStage::Vertex,
        ShaderStage::Fragment => PipelineStage::Fragment,
        ShaderStage::Compute => PipelineStage::Compute,
    }
}

/// How `Debug` renders a pipeline stage: the name of its variant.
pub open spec fn stage_debug_name(stage: PipelineStage) -> Seq<char> {
    match stage {
        PipelineStage::Vertex => "Vertex"@,
        PipelineStage::Task => "Task"@,
        PipelineStage::Mesh => "Mesh"@,
        PipelineStage::Fragment => "Fragment"@,
        PipelineStage::Compute => "Compute"@,
        PipelineStage::RayGeneration => "RayGeneration"@,
        PipelineStage::Miss => "Miss"@,
        PipelineStage::AnyHit => "AnyHit"@,
        PipelineStage::ClosestHit => "ClosestHit"@,
    }
}

fn concat3(a: &str, b: &str, c: &str) -> (s: String)
    ensures
        s@ == a@ + b@ + c@,
{
    let mut s = String::from_str(a);
    s.append(b);
    s.append(c);
    s
}

/// Parses the name of an input language.
pub fn parse_input_format(value: &str) -> (r: Result<InputFormat, Diagnostic>)
    ensures
        match r {
            Ok(f) => spec_input_format(value@) == Some(f),
            Err(d) => spec_input_format(value@) is None && is_usage_error(
                d,
                input_format_error(value@),
            ),
        },
{
    if str_equal(value, "wgsl") {
        Ok(InputFormat::Wgsl)
    } else if str_equal(value, "glsl") {
        Ok(InputFormat::Glsl)
    } else if str_equal(value, "spv") {
        Ok(InputFormat::Spv)
    } else {
        Err(
            Diagnostic::usage(
                concat3(
                    "invalid `from` '",
                    value,
                    "'; expected one of \"wgsl\", \"glsl\", \"spv\"",
                ),
            ),
        )
    }
}

/// Parses the name of an output language.
pub fn parse_output_format(value: &str) -> (r: Result<OutputFormat, Diagnostic>)
    ensures
        match r {
            Ok(f) => spec_output_format(value@) == Some(f),
            Err(d) => spec_output_format(value@) is None && is_usage_error(
                d,
                output_format_error(value@),
            ),
        },
{
    if str_equal(value, "wgsl") {
        Ok(OutputFormat::Wgsl)
    } else if str_equal(value, "glsl") {
        Ok(OutputFormat::Glsl)
    } else if str_equal(value, "hlsl") {
        Ok(OutputFormat::Hlsl)
    } else if str_equal(value, "msl") {
        Ok(OutputFormat::Msl)
    } else if str_equal(value, "spv") {
        Ok(OutputFormat::Spv)
    } else if str_equal(value, "dot") {
        Ok(OutputFormat::Dot)
    } else {
        Err(
            Diagnostic::usage(
                concat3(
                    "invalid `to` '",
                    value,
                    "'; expected one of \"wgsl\", \"glsl\", \"hlsl\", \"msl\", \"spv\", \"dot\"",
                ),
            ),
        )
    }
}

/// Parses the name of a pipeline stage.
pub fn parse_shader_stage(value: &str) -> (r: Result<ShaderStage, Diagnostic>)
    ensures
        match r {
            Ok(s) => spec_shader_stage(value@) == Some(s),
            Err(d) => spec_shader_stage(value@) is None && is_usage_error(
                d,
                shader_stage_error(value@),
            ),
        },
{
    if str_equal(value, "vertex") {
        Ok(ShaderStage::Vertex)
    } else if str_equal(value, "fragment") {
        Ok(ShaderStage::Fragment)
    } else if str_equal(value, "compute") {
        Ok(ShaderStage::Compute)
    } else {
        Err(
            Diagnostic::usage(
                concat3(
                    "invalid `stage` '",
                    value,
                    "'; expected one of \"vertex\", \"fragment\", \"compute\"",
                ),
            ),
        )
    }
}

/// The full pipeline stage of a stage that callers can name.
pub fn pipeline_stage(stage: ShaderStage) -> (r: PipelineStage)
    ensures
        r == spec_pipeline_stage(stage),
{
    match stage {
        ShaderStage::Vertex => PipelineStage::Vertex,
        ShaderStage::Fragment => PipelineStage::Fragment,
        ShaderStage::Compute => PipelineStage::Compute,
    }
}

/// The `Debug` rendering of a pipeline stage.
pub fn stage_name(stage: PipelineStage) -> (r: &'static str)
    ensures
        r@ == stage_debug_name(stage),
{
    match stage {
        PipelineStage::Vertex => "Vertex",
        PipelineStage::Task => "Task",
        PipelineStage::Mesh => "Mesh",
        PipelineStage::Fragment => "Fragment",
        PipelineStage::Compute => "Compute",
        PipelineStage::RayGeneration => "RayGeneration",
        PipelineStage::Miss => "Miss",
        PipelineStage::AnyHit => "AnyHit",
        PipelineStage::ClosestHit => "ClosestHit",
    }
}

} // verus!
