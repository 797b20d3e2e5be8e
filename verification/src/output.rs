//! Choosing what a backend writes: the entry point, the GLSL version and
//! the HLSL shader model that options select, and the byte order of
//! SPIR-V output.

use vstd::prelude::*;
use crate::diagnostic::{Diagnostic, is_usage_error};
use crate::formats::{
    OutputFormat, PipelineStage, ShaderStage, pipeline_stage, spec_pipeline_stage, stage_debug_name,
    stage_name,
};
use crate::text::{
    ascii_lower, ends_with, parse_u16, spec_parse_u16, str_equal, to_ascii_lowercase, trim, trimmed,
};

verus! {

/// A GLSL version: `core` (desktop) or `es` (embedded, not WebGL).
#[derive(Debug, Clone, Copy, PartialEq, Eq, Structural)]
pub enum GlslVersion {
    Desktop(u16),
    Embedded(u16),
}

/// An HLSL shader model version.
#[derive(Debug, Clone, Copy, PartialEq, Eq, Structural)]
pub enum HlslShaderModel {
    V5_0,
    V5_1,
    V6_0,
    V6_1,
    V6_2,
    V6_3,
    V6_4,
    V6_5,
    V6_6,
    V6_7,
    V6_8,
    V6_9,
}

/// The GLSL version that `s` names: after trimming and ASCII lower-casing,
/// a `u16` for a desktop version, or a `u16` followed by `es` (white space
/// between them allowed) for an embedded one.
pub open spec fn spec_glsl_version(s: Seq<char>) -> Option<GlslVersion> {
    let t = ascii_lower(trimmed(s));
    if ends_with(t, "es"@) {
        match spec_parse_u16(trimmed(t.take(t.len() - 2))) {
            Some(v) => Some(GlslVersion::Embedded(v)),
            None => None,
        }
    } else {
        match spec_parse_u16(t) {
            Some(v) => Some(GlslVersion::Desktop(v)),
            None => None,
        }
    }
}

/// The message for a GLSL version that `s` does not name.
pub open spec fn glsl_version_error(s: Seq<char>) -> Seq<char> {
    "invalid `glslVersion` '"@ + s + "'; expected e.g. \"310 es\" or \"450\""@
}

/// Parses a GLSL version such as `"310 es"` or `"450"`.
pub fn parse_glsl_version(spec: &str) -> (r: Result<GlslVersion, Diagnostic>)
    ensures
        match spec_glsl_version(spec@) {
            Some(v) => r == Ok::<GlslVersion, Diagnostic>(v),
            None => r is Err && is_usage_error(r->Err_0, glsl_version_error(spec@)),
        },
{
    let lowered = to_ascii_lowercase(trim(spec));
    let t = lowered.as_str();
    let n = t.unicode_len();
    proof {
        reveal_strlit("es");
    }
    let es = n >= 2 && t.get_char(n - 2) == 'e' && t.get_char(n - 1) == 's';
    assert(es == ends_with(t@, "es"@)) by {
        if n >= 2 {
            assert(es ==> t@.skip(n - 2) =~= "es"@);
            assert(t@.skip(n - 2) == "es"@ ==> t@.skip(n - 2)[0] == 'e' && t@.skip(n - 2)[1]
                == 's');
        }
    }
    let parsed = if es {
        let number = trim(t.substring_char(0, n - 2));
        assert(t@.subrange(0, n - 2) =~= t@.take(t@.len() - 2));
        match parse_u16(number) {
            Some(v) => Some(GlslVersion::Embedded(v)),
            None => None,
        }
    } else {
        match parse_u16(t) {
            Some(v) => Some(GlslVersion::Desktop(v)),
            None => None,
        }
    };
    match parsed {
        Some(v) => Ok(v),
        None => {
            let mut m = String::from_str("invalid `glslVersion` '");
            m.append(spec);
            m.append("'; expected e.g. \"310 es\" or \"450\"");
            Err(Diagnostic::usage(m))
        },
    }
}

/// The HLSL shader model that `s` names after trimming, such as `5_1`.
pub open spec fn spec_hlsl_shader_model(s: Seq<char>) -> Option<HlslShaderModel> {
    let t = trimmed(s);
    if t == "5_0"@ {
        Some(HlslShaderModel::V5_0)
    } else if t == "5_1"@ {
        Some(HlslShaderModel::V5_1)
    } else if t == "6_0"@ {
        Some(HlslShaderModel::V6_0)
    } else if t == "6_1"@ {
        Some(HlslShaderModel::V6_1)
    } else if t == "6_2"@ {
        Some(HlslShaderModel::V6_2)
    } else if t == "6_3"@ {
        Some(HlslShaderModel::V6_3)
    } else if t == "6_4"@ {
        Some(HlslShaderModel::V6_4)
    } else if t == "6_5"@ {
        Some(HlslShaderModel::V6_5)
    } else if t == "6_6"@ {
        Some(HlslShaderModel::V6_6)
    } else if t == "6_7"@ {
        Some(HlslShaderModel::V6_7)
    } else if t == "6_8"@ {
        Some(HlslShaderModel::V6_8)
    } else if t == "6_9"@ {
        Some(HlslShaderModel::V6_9)
    } else {
        None
    }
}

/// The message for a shader model that the trimmed text `t` does not name.
pub open spec fn hlsl_shader_model_error(t: Seq<char>) -> Seq<char> {
    "invalid `hlslShaderModel` '"@ + t + "'; expected e.g. \"5_1\" or \"6_0\""@
}

/// Parses an HLSL shader model such as `"5_1"` or `"6_0"`.
pub fn parse_hlsl_shader_model(spec: &str) -> (r: Result<HlslShaderModel, Diagnostic>)
    ensures
        match spec_hlsl_shader_model(spec@) {
            Some(m) => r == Ok::<HlslShaderModel, Diagnostic>(m),
            None => r is Err && is_usage_error(r->Err_0, hlsl_shader_model_error(trimmed(spec@))),
        },
{
    let t = trim(spec);
    if str_equal(t, "5_0") {
        Ok(HlslShaderModel::V5_0)
    } else if str_equal(t, "5_1") {
        Ok(HlslShaderModel::V5_1)
    } else if str_equal(t, "6_0") {
        Ok(HlslShaderModel::V6_0)
    } else if str_equal(t, "6_1") {
        Ok(HlslShaderModel::V6_1)
    } else if str_equal(t, "6_2") {
        Ok(HlslShaderModel::V6_2)
    } else if str_equal(t, "6_3") {
        Ok(HlslShaderModel::V6_3)
    } else if str_equal(t, "6_4") {
        Ok(HlslShaderModel::V6_4)
    } else if str_equal(t, "6_5") {
        Ok(HlslShaderModel::V6_5)
    } else if str_equal(t, "6_6") {
        Ok(HlslShaderModel::V6_6)
    } else if str_equal(t, "6_7") {
        Ok(HlslShaderModel::V6_7)
    } else if str_equal(t, "6_8") {
        Ok(HlslShaderModel::V6_8)
    } else if str_equal(t, "6_9") {
        Ok(HlslShaderModel::V6_9)
    } else {
        let mut m = String::from_str("invalid `hlslShaderModel` '");
        m.append(t);
        m.append("'; expected e.g. \"5_1\" or \"6_0\"");
        Err(Diagnostic::usage(m))
    }
}

} // verus!

verus! {

/// An entry point of a shader module: its stage and its name.
#[derive(Debug)]
pub struct EntryPoint {
    pub stage: PipelineStage,
    pub name: String,
}

/// An entry point as a pair of plain values.
pub open spec fn entry_view(e: EntryPoint) -> (PipelineStage, Seq<char>) {
    (e.stage, e.name@)
}

/// The entry points of a list as pairs of plain values.
pub open spec fn entries_view(eps: Seq<EntryPoint>) -> Seq<(PipelineStage, Seq<char>)> {
    eps.map_values(|e: EntryPoint| entry_view(e))
}

/// The optional name of an entry point, as plain characters.
pub open spec fn opt_view(name: Option<&str>) -> Option<Seq<char>> {
    match name {
        Some(n) => Some(n@),
        None => None,
    }
}

/// The message for a stage and name that no entry point has.
pub open spec fn entry_point_missing_error(name: Seq<char>, stage: PipelineStage) -> Seq<char> {
    "entry point '"@ + name + "' with stage "@ + stage_debug_name(stage) + " not found in module"@
}

/// The message for a module whose entry point cannot be chosen alone.
pub open spec fn ambiguous_entry_point_error() -> Seq<char> {
    "shader has multiple entry points; specify `stage` and `entryPoint`"@
}

/// The entry point that a backend writing a single one uses: the one named
/// by both `stage` and `name` when both are given and the module has it,
/// else the sole entry point of the module; or the message why there is none.
pub open spec fn spec_resolve_entry_point(
    eps: Seq<(PipelineStage, Seq<char>)>,
    stage: Option<ShaderStage>,
    name: Option<Seq<char>>,
) -> Result<(PipelineStage, Seq<char>), Seq<char>> {
    match (stage, name) {
        (Some(s), Some(n)) => if eps.contains((spec_pipeline_stage(s), n)) {
            Ok((spec_pipeline_stage(s), n))
        } else {
            Err(entry_point_missing_error(n, spec_pipeline_stage(s)))
        },
        _ => if eps.len() == 1 {
            Ok(eps[0])
        } else {
            Err(ambiguous_entry_point_error())
        },
    }
}

/// The entry point for SPIR-V output: none when neither stage nor name is
/// given and the module has no entry point; else as for a single entry point,
/// so a module with several entry points needs both stage and name.
pub open spec fn spec_resolve_entry_point_optional(
    eps: Seq<(PipelineStage, Seq<char>)>,
    stage: Option<ShaderStage>,
    name: Option<Seq<char>>,
) -> Result<Option<(PipelineStage, Seq<char>)>, Seq<char>> {
    if stage is None && name is None && eps.len() == 0 {
        Ok(None)
    } else {
        match spec_resolve_entry_point(eps, stage, name) {
            Ok(e) => Ok(Some(e)),
            Err(m) => Err(m),
        }
    }
}

/// The entry point that the HLSL and MSL backends are asked for: the stage
/// and name given, unchecked, when both are; else the sole entry point;
/// else none, meaning all of them.
pub open spec fn spec_entry_point_choice(
    eps: Seq<(PipelineStage, Seq<char>)>,
    stage: Option<ShaderStage>,
    name: Option<Seq<char>>,
) -> Option<(PipelineStage, Seq<char>)> {
    match (stage, name) {
        (Some(s), Some(n)) => Some((spec_pipeline_stage(s), n)),
        _ => if eps.len() == 1 {
            Some(eps[0])
        } else {
            None
        },
    }
}

fn copy_entry(e: &EntryPoint) -> (r: (PipelineStage, String))
    ensures
        r.0 == e.stage,
        r.1@ == e.name@,
{
    (e.stage, e.name.clone())
}

/// Whether the module has an entry point of `stage` named `name`.
fn has_entry_point(eps: &Vec<EntryPoint>, stage: PipelineStage, name: &str) -> (r: bool)
    ensures
        r == entries_view(eps@).contains((stage, name@)),
{
    let n = eps.len();
    let mut i: usize = 0;
    while i < n
        invariant
            n == eps@.len(),
            i <= n,
            forall|j: int| 0 <= j < i ==> entries_view(eps@)[j] != (stage, name@),
        decreases n - i,
    {
        if eps[i].stage == stage && str_equal(eps[i].name.as_str(), name) {
            assert(entries_view(eps@)[i as int] == (stage, name@));
            return true;
        }
        assert(entries_view(eps@)[i as int] == entry_view(eps@[i as int]));
        i = i + 1;
    }
    false
}

/// The entry point for a backend that writes a single one.
pub fn resolve_entry_point(
    eps: &Vec<EntryPoint>,
    stage: Option<ShaderStage>,
    name: Option<&str>,
) -> (r: Result<(PipelineStage, String), Diagnostic>)
    ensures
        match spec_resolve_entry_point(entries_view(eps@), stage, opt_view(name)) {
            Ok(e) => r is Ok && r->Ok_0.0 == e.0 && r->Ok_0.1@ == e.1,
            Err(m) => r is Err && is_usage_error(r->Err_0, m),
        },
{
    if let (Some(stage), Some(name)) = (stage, name) {
        let s = pipeline_stage(stage);
        if has_entry_point(eps, s, name) {
            return Ok((s, String::from_str(name)));
        }
        let mut m = String::from_str("entry point '");
        m.append(name);
        m.append("' with stage ");
        m.append(stage_name(s));
        m.append(" not found in module");
        return Err(Diagnostic::usage(m));
    }
    if eps.len() == 1 {
        return Ok(copy_entry(&eps[0]));
    }
    Err(
        Diagnostic::usage(
            String::from_str("shader has multiple entry points; specify `stage` and `entryPoint`"),
        ),
    )
}

/// The entry point for SPIR-V output: like [`resolve_entry_point`], but
/// `None` (the whole module) when nothing is selected and the module has no
/// entry point.
pub fn resolve_entry_point_optional(
    eps: &Vec<EntryPoint>,
    stage: Option<ShaderStage>,
    name: Option<&str>,
) -> (r: Result<Option<(PipelineStage, String)>, Diagnostic>)
    ensures
        match spec_resolve_entry_point_optional(entries_view(eps@), stage, opt_view(name)) {
            Ok(Some(e)) => r is Ok && r->Ok_0 is Some && r->Ok_0->Some_0.0 == e.0
                && r->Ok_0->Some_0.1@ == e.1,
            Ok(None) => r is Ok && r->Ok_0 is None,
            Err(m) => r is Err && is_usage_error(r->Err_0, m),
        },
{
    if stage.is_none() && name.is_none() && eps.len() == 0 {
        return Ok(None);
    }
    match resolve_entry_point(eps, stage, name) {
        Ok(e) => Ok(Some(e)),
        Err(d) => Err(d),
    }
}

/// The entry point that the HLSL and MSL backends are asked for.
pub fn entry_point_choice(
    eps: &Vec<EntryPoint>,
    stage: Option<ShaderStage>,
    name: Option<&str>,
) -> (r: Option<(PipelineStage, String)>)
    ensures
        match spec_entry_point_choice(entries_view(eps@), stage, opt_view(name)) {
            Some(e) => r is Some && r->Some_0.0 == e.0 && r->Some_0.1@ == e.1,
            None => r is None,
        },
{
    if let (Some(stage), Some(name)) = (stage, name) {
        return Some((pipeline_stage(stage), String::from_str(name)));
    }
    if eps.len() == 1 {
        return Some(copy_entry(&eps[0]));
    }
    None
}

} // verus!

verus! {

/// What a backend is asked to write, with the entry point, version and
/// shader model as plain values.
pub enum PlannedOutput {
    Wgsl,
    Glsl { version: GlslVersion, single_entry: (PipelineStage, Seq<char>) },
    Hlsl {
        shader_model: HlslShaderModel,
        entry: Option<(PipelineStage, Seq<char>)>,
        fragment: Option<Seq<char>>,
    },
    Msl { entry: Option<(PipelineStage, Seq<char>)> },
    Spv { entry: Option<(PipelineStage, Seq<char>)> },
    Dot,
}

/// What a backend is asked to write.
#[derive(Debug)]
pub enum OutputPlan {
    /// WGSL text of the whole module.
    Wgsl,
    /// GLSL text of one entry point.
    Glsl { version: GlslVersion, stage: PipelineStage, entry_name: String },
    /// HLSL text of one entry point or of all; `fragment` names the fragment
    /// entry point whose inputs are linked.
    Hlsl {
        shader_model: HlslShaderModel,
        entry_point: Option<(PipelineStage, String)>,
        fragment: Option<String>,
    },
    /// MSL text of one entry point or of all.
    Msl { entry_point: Option<(PipelineStage, String)> },
    /// SPIR-V words of one entry point or of all.
    Spv { entry_point: Option<(PipelineStage, String)> },
    /// A DOT graph of the module.
    Dot,
}

/// An optional entry point as plain values.
pub open spec fn opt_entry_view(e: Option<(PipelineStage, String)>) -> Option<(PipelineStage, Seq<char>)> {
    match e {
        Some((s, n)) => Some((s, n@)),
        None => None,
    }
}

/// An optional string as plain characters.
pub open spec fn opt_string_view(s: Option<String>) -> Option<Seq<char>> {
    match s {
        Some(t) => Some(t@),
        None => None,
    }
}

/// A plan as plain values.
pub open spec fn plan_view(p: OutputPlan) -> PlannedOutput {
    match p {
        OutputPlan::Wgsl => PlannedOutput::Wgsl,
        OutputPlan::Glsl { version, stage, entry_name } => PlannedOutput::Glsl {
            version,
            single_entry: (stage, entry_name@),
        },
        OutputPlan::Hlsl { shader_model, entry_point, fragment } => PlannedOutput::Hlsl {
            shader_model,
            entry: opt_entry_view(entry_point),
            fragment: opt_string_view(fragment),
        },
        OutputPlan::Msl { entry_point } => PlannedOutput::Msl { entry: opt_entry_view(entry_point) },
        OutputPlan::Spv { entry_point } => PlannedOutput::Spv { entry: opt_entry_view(entry_point) },
        OutputPlan::Dot => PlannedOutput::Dot,
    }
}

/// The fragment entry point whose inputs HLSL output links: the chosen
/// entry point when its stage is the fragment stage.
pub open spec fn fragment_of(entry: Option<(PipelineStage, Seq<char>)>) -> Option<Seq<char>> {
    match entry {
        Some((stage, name)) => if stage == PipelineStage::Fragment {
            Some(name)
        } else {
            None
        },
        None => None,
    }
}

/// What the options ask a backend to write, or the message for the first
/// option that does not fit: for GLSL the entry point and then the version
/// (`310 es` by default); for HLSL the shader model (`5_1` by default) and
/// then the entry point; for SPIR-V the entry point, if any.
pub open spec fn spec_plan_output(
    to: OutputFormat,
    stage: Option<ShaderStage>,
    name: Option<Seq<char>>,
    glsl_version: Option<Seq<char>>,
    hlsl_shader_model: Option<Seq<char>>,
    eps: Seq<(PipelineStage, Seq<char>)>,
) -> Result<PlannedOutput, Seq<char>> {
    match to {
        OutputFormat::Wgsl => Ok(PlannedOutput::Wgsl),
        OutputFormat::Glsl => match spec_resolve_entry_point(eps, stage, name) {
            Err(m) => Err(m),
            Ok(entry) => match glsl_version {
                None => Ok(
                    PlannedOutput::Glsl { version: GlslVersion::Embedded(310), single_entry: entry },
                ),
                Some(v) => match spec_glsl_version(v) {
                    Some(version) => Ok(PlannedOutput::Glsl { version, single_entry: entry }),
                    None => Err(glsl_version_error(v)),
                },
            },
        },
        OutputFormat::Hlsl => {
            let entry = spec_entry_point_choice(eps, stage, name);
            match hlsl_shader_model {
                None => Ok(
                    PlannedOutput::Hlsl {
                        shader_model: HlslShaderModel::V5_1,
                        entry,
                        fragment: fragment_of(entry),
                    },
                ),
                Some(s) => match spec_hlsl_shader_model(s) {
                    Some(shader_model) => Ok(
                        PlannedOutput::Hlsl { shader_model, entry, fragment: fragment_of(entry) },
                    ),
                    None => Err(hlsl_shader_model_error(trimmed(s))),
                },
            }
        },
        OutputFormat::Msl => Ok(
            PlannedOutput::Msl { entry: spec_entry_point_choice(eps, stage, name) },
        ),
        OutputFormat::Spv => match spec_resolve_entry_point_optional(eps, stage, name) {
            Ok(entry) => Ok(PlannedOutput::Spv { entry }),
            Err(m) => Err(m),
        },
        OutputFormat::Dot => Ok(PlannedOutput::Dot),
    }
}

fn fragment_name(entry: &Option<(PipelineStage, String)>) -> (r: Option<String>)
    ensures
        opt_string_view(r) == fragment_of(opt_entry_view(*entry)),
{
    match entry {
        Some((stage, name)) => if *stage == PipelineStage::Fragment {
            Some(name.clone())
        } else {
            None
        },
        None => None,
    }
}

/// What the options ask the backend of `to` to write for a module with the
/// entry points `eps`.
pub fn plan_output(
    to: OutputFormat,
    stage: Option<ShaderStage>,
    entry_point: Option<&str>,
    glsl_version: Option<&str>,
    hlsl_shader_model: Option<&str>,
    eps: &Vec<EntryPoint>,
) -> (r: Result<OutputPlan, Diagnostic>)
    ensures
        match spec_plan_output(
            to,
            stage,
            opt_view(entry_point),
            opt_view(glsl_version),
            opt_view(hlsl_shader_model),
            entries_view(eps@),
        ) {
            Ok(p) => r is Ok && plan_view(r->Ok_0) == p,
            Err(m) => r is Err && is_usage_error(r->Err_0, m),
        },
{
    match to {
        OutputFormat::Wgsl => Ok(OutputPlan::Wgsl),
        OutputFormat::Glsl => {
            let (ep_stage, ep_name) = resolve_entry_point(eps, stage, entry_point)?;
            let version = match glsl_version {
                Some(spec) => parse_glsl_version(spec)?,
                None => GlslVersion::Embedded(310),
            };
            Ok(OutputPlan::Glsl { version, stage: ep_stage, entry_name: ep_name })
        },
        OutputFormat::Hlsl => {
            let shader_model = match hlsl_shader_model {
                Some(spec) => parse_hlsl_shader_model(spec)?,
                None => HlslShaderModel::V5_1,
            };
            let entry = entry_point_choice(eps, stage, entry_point);
            let fragment = fragment_name(&entry);
            Ok(OutputPlan::Hlsl { shader_model, entry_point: entry, fragment })
        },
        OutputFormat::Msl => Ok(
            OutputPlan::Msl { entry_point: entry_point_choice(eps, stage, entry_point) },
        ),
        OutputFormat::Spv => {
            let entry = resolve_entry_point_optional(eps, stage, entry_point)?;
            Ok(OutputPlan::Spv { entry_point: entry })
        },
        OutputFormat::Dot => Ok(OutputPlan::Dot),
    }
}

/// The four bytes of a word, least significant first.
pub open spec fn word_le_bytes(w: u32) -> Seq<u8> {
    seq![(w & 0xff) as u8, ((w >> 8) & 0xff) as u8, ((w >> 16) & 0xff) as u8, (w >> 24) as u8]
}

/// The bytes of a word stream, each word little-endian, in order.
pub open spec fn le_bytes(words: Seq<u32>) -> Seq<u8>
    decreases words.len(),
{
    if words.len() == 0 {
        Seq::empty()
    } else {
        le_bytes(words.drop_last()) + word_le_bytes(words.last())
    }
}

proof fn lemma_le_bytes_len(words: Seq<u32>)
    ensures
        le_bytes(words).len() == 4 * words.len(),
    decreases words.len(),
{
    if words.len() > 0 {
        lemma_le_bytes_len(words.drop_last());
    }
}

/// The SPIR-V word stream as bytes, each word little-endian.
pub fn words_to_le_bytes(words: &Vec<u32>) -> (bytes: Vec<u8>)
    ensures
        bytes@ == le_bytes(words@),
{
    let n = words.len();
    let mut bytes: Vec<u8> = Vec::new();
    let mut i: usize = 0;
    while i < n
        invariant
            n == words@.len(),
            i <= n,
            bytes@ == le_bytes(words@.take(i as int)),
        decreases n - i,
    {
        assert(words@.take(i + 1).drop_last() =~= words@.take(i as int));
        let w = words[i];
        bytes.push((w & 0xff) as u8);
        bytes.push(((w >> 8) & 0xff) as u8);
        bytes.push(((w >> 16) & 0xff) as u8);
        bytes.push((w >> 24) as u8);
        assert(bytes@ =~= le_bytes(words@.take(i as int)) + word_le_bytes(w));
        i = i + 1;
    }
    assert(words@.take(n as int) =~= words@);
    bytes
}

} // verus!
