//! Validator strictness: the named flag sets that callers pass, and how a
//! list of names becomes the bits of a flag set.

use vstd::prelude::*;
use crate::diagnostic::{Diagnostic, is_usage_error};
use crate::text::str_equal;

verus! {

/// The flag of `name` in a table of names and flags: that of its first entry
/// with this name.
pub open spec fn table_lookup(names: Seq<&str>, flags: Seq<u64>, name: Seq<char>) -> Option<u64>
    decreases names.len(),
{
    if names.len() == 0 || flags.len() == 0 {
        None
    } else if names[0]@ == name {
        Some(flags[0])
    } else {
        table_lookup(names.drop_first(), flags.drop_first(), name)
    }
}

/// Folds the flags of `list` into `acc`, stopping at the first name the
/// table does not know, which is then the error.
pub open spec fn flag_fold(list: Seq<String>, names: Seq<&str>, flags: Seq<u64>, acc: u64) -> Result<
    u64,
    Seq<char>,
>
    decreases list.len(),
{
    if list.len() == 0 {
        Ok(acc)
    } else {
        match table_lookup(names, flags, list[0]@) {
            Some(f) => flag_fold(list.drop_first(), names, flags, acc | f),
            None => Err(list[0]@),
        }
    }
}

/// Whether one of the names in `list` is `"all"`.
pub open spec fn names_all(list: Seq<String>) -> bool {
    exists|i: int| 0 <= i < list.len() && #[trigger] list[i]@ == "all"@
}

/// What a list of names selects: everything when it names `"all"`, else the
/// union of the flags it names, or the first name the table does not know.
pub open spec fn spec_flag_list(
    list: Seq<String>,
    all: u64,
    empty: u64,
    names: Seq<&str>,
    flags: Seq<u64>,
) -> Result<u64, Seq<char>> {
    if names_all(list) {
        Ok(all)
    } else {
        flag_fold(list, names, flags, empty)
    }
}

/// The valid names after `"all"`, each quoted and preceded by `, `.
pub open spec fn quoted_names(names: Seq<&str>) -> Seq<char>
    decreases names.len(),
{
    if names.len() == 0 {
        Seq::empty()
    } else {
        quoted_names(names.drop_last()) + ", \""@ + names.last()@ + "\""@
    }
}

/// The message for the unknown name `name` of a kind `what` of flag.
pub open spec fn flag_list_error(what: Seq<char>, name: Seq<char>, names: Seq<&str>) -> Seq<char> {
    "invalid "@ + what + " '"@ + name + "'; expected one of "@ + "\"all\""@ + quoted_names(names)
}

/// The first flag that `table` gives `name`, by a search from the front.
fn lookup_flag(names: &[&str], flags: &[u64], name: &str) -> (r: Option<u64>)
    requires
        names@.len() == flags@.len(),
    ensures
        r == table_lookup(names@, flags@, name@),
{
    let n = names.len();
    let mut i: usize = 0;
    assert(names@.skip(0) =~= names@);
    assert(flags@.skip(0) =~= flags@);
    while i < n
        invariant
            n == names@.len(),
            n == flags@.len(),
            i <= n,
            table_lookup(names@, flags@, name@) == table_lookup(
                names@.skip(i as int),
                flags@.skip(i as int),
                name@,
            ),
        decreases n - i,
    {
        assert(names@.skip(i as int).drop_first() =~= names@.skip(i + 1));
        assert(flags@.skip(i as int).drop_first() =~= flags@.skip(i + 1));
        if str_equal(names[i], name) {
            return Some(flags[i]);
        }
        i = i + 1;
    }
    None
}

/// Whether `list` names `"all"`.
fn contains_all(list: &[String]) -> (r: bool)
    ensures
        r == names_all(list@),
{
    let n = list.len();
    let mut i: usize = 0;
    while i < n
        invariant
            n == list@.len(),
            i <= n,
            forall|j: int| 0 <= j < i ==> list@[j]@ != "all"@,
        decreases n - i,
    {
        if str_equal(list[i].as_str(), "all") {
            return true;
        }
        i = i + 1;
    }
    false
}

/// The message listing the valid names, for an unknown `name`.
fn flag_list_message(what: &str, name: &str, valid: &[&str]) -> (s: String)
    ensures
        s@ == flag_list_error(what@, name@, valid@),
{
    let mut expected = String::from_str("\"all\"");
    let n = valid.len();
    let mut i: usize = 0;
    while i < n
        invariant
            n == valid@.len(),
            i <= n,
            expected@ == "\"all\""@ + quoted_names(valid@.take(i as int)),
        decreases n - i,
    {
        assert(valid@.take(i + 1).drop_last() =~= valid@.take(i as int));
        expected.append(", \"");
        expected.append(valid[i]);
        expected.append("\"");
        i = i + 1;
    }
    assert(valid@.take(n as int) =~= valid@);
    let mut s = String::from_str("invalid ");
    s.append(what);
    s.append(" '");
    s.append(name);
    s.append("'; expected one of ");
    s.append(expected.as_str());
    s
}

/// Turns a list of flag names into the bits of a flag set: `all` when the
/// list names `"all"`, else `empty` together with the flag of each name,
/// which `flags` gives at the index that `valid` gives the name.
pub fn parse_flag_list(
    list: &[String],
    all: u64,
    empty: u64,
    what: &str,
    valid: &[&str],
    flags: &[u64],
) -> (r: Result<u64, Diagnostic>)
    requires
        valid@.len() == flags@.len(),
    ensures
        match spec_flag_list(list@, all, empty, valid@, flags@) {
            Ok(bits) => r == Ok::<u64, Diagnostic>(bits),
            Err(name) => r is Err && is_usage_error(
                r->Err_0,
                flag_list_error(what@, name, valid@),
            ),
        },
{
    if contains_all(list) {
        return Ok(all);
    }
    let mut out = empty;
    let n = list.len();
    let mut i: usize = 0;
    assert(list@.skip(0) =~= list@);
    while i < n
        invariant
            n == list@.len(),
            i <= n,
            valid@.len() == flags@.len(),
            !names_all(list@),
            flag_fold(list@, valid@, flags@, empty) == flag_fold(
                list@.skip(i as int),
                valid@,
                flags@,
                out,
            ),
        decreases n - i,
    {
        assert(list@.skip(i as int).drop_first() =~= list@.skip(i + 1));
        assert(list@.skip(i as int)[0] == list@[i as int]);
        match lookup_flag(valid, flags, list[i].as_str()) {
            Some(flag) => {
                out = out | flag;
            },
            None => {
                let message = flag_list_message(what, list[i].as_str(), valid);
                return Err(Diagnostic::usage(message));
            },
        }
        i = i + 1;
    }
    assert(list@.skip(n as int) =~= Seq::<String>::empty());
    Ok(out)
}

} // verus!

verus! {

/// The names of the validation passes, in table order.
pub open spec fn validation_flag_names() -> Seq<&'static str> {
    seq![
        "expressions",
        "blocks",
        "control_flow_uniformity",
        "struct_layouts",
        "constants",
        "bindings",
    ]
}

/// The flag bit of each of the validation passes, at the index of its name.
pub open spec fn validation_flag_bits() -> Seq<u64> {
    seq![
        0x1,
        0x2,
        0x4,
        0x8,
        0x10,
        0x20,
    ]
}

pub fn validation_flag_name_table() -> (r: [&'static str; 6])
    ensures
        r@ == validation_flag_names(),
{
    [
        "expressions",
        "blocks",
        "control_flow_uniformity",
        "struct_layouts",
        "constants",
        "bindings",
    ]
}

fn validation_flag_bit_table() -> (r: [u64; 6])
    ensures
        r@ == validation_flag_bits(),
{
    [
        0x1,
        0x2,
        0x4,
        0x8,
        0x10,
        0x20,
    ]
}

/// The names of the IR capabilities, in table order.
pub open spec fn capability_names() -> Seq<&'static str> {
    seq![
        "immediates",
        "float64",
        "primitive_index",
        "texture_and_sampler_binding_array",
        "buffer_binding_array",
        "storage_texture_binding_array",
        "storage_buffer_binding_array",
        "clip_distances",
        "cull_distance",
        "storage_texture_16bit_norm_formats",
        "multiview",
        "early_depth_test",
        "multisampled_shading",
        "ray_query",
        "dual_source_blending",
        "cube_array_textures",
        "shader_int64",
        "subgroup",
        "subgroup_barrier",
        "subgroup_vertex_stage",
        "shader_int64_atomic_min_max",
        "shader_int64_atomic_all_ops",
        "shader_float32_atomic",
        "texture_atomic",
        "texture_int64_atomic",
        "ray_hit_vertex_position",
        "shader_float16",
        "texture_external",
        "shader_float16_in_float32",
        "shader_barycentrics",
        "mesh_shader",
        "mesh_shader_point_topology",
        "texture_and_sampler_binding_array_non_uniform_indexing",
        "buffer_binding_array_non_uniform_indexing",
        "storage_texture_binding_array_non_uniform_indexing",
        "storage_buffer_binding_array_non_uniform_indexing",
        "cooperative_matrix",
        "per_vertex",
        "ray_tracing_pipeline",
        "draw_index",
        "acceleration_structure_binding_array",
        "memory_decoration_coherent",
        "memory_decoration_volatile",
        "shader_int16",
    ]
}

/// The flag bit of each of the IR capabilities, at the index of its name.
pub open spec fn capability_bits() -> Seq<u64> {
    seq![
        0x1,
        0x2,
        0x4,
        0x8,
        0x10,
        0x20,
        0x40,
        0x80,
        0x100,
        0x200,
        0x400,
        0x800,
        0x1000,
        0x2000,
        0x4000,
        0x8000,
        0x10000,
        0x20000,
        0x40000,
        0x80000,
        0x100000,
        0x200000,
        0x400000,
        0x800000,
        0x1000000,
        0x2000000,
        0x4000000,
        0x8000000,
        0x10000000,
        0x20000000,
        0x40000000,
        0x80000000,
        0x100000000,
        0x200000000,
        0x400000000,
        0x800000000,
        0x1000000000,
        0x2000000000,
        0x4000000000,
        0x8000000000,
        0x10000000000,
        0x20000000000,
        0x40000000000,
        0x80000000000,
    ]
}

pub fn capability_name_table() -> (r: [&'static str; 44])
    ensures
        r@ == capability_names(),
{
    [
        "immediates",
        "float64",
        "primitive_index",
        "texture_and_sampler_binding_array",
        "buffer_binding_array",
        "storage_texture_binding_array",
        "storage_buffer_binding_array",
        "clip_distances",
        "cull_distance",
        "storage_texture_16bit_norm_formats",
        "multiview",
        "early_depth_test",
        "multisampled_shading",
        "ray_query",
        "dual_source_blending",
        "cube_array_textures",
        "shader_int64",
        "subgroup",
        "subgroup_barrier",
        "subgroup_vertex_stage",
        "shader_int64_atomic_min_max",
        "shader_int64_atomic_all_ops",
        "shader_float32_atomic",
        "texture_atomic",
        "texture_int64_atomic",
        "ray_hit_vertex_position",
        "shader_float16",
        "texture_external",
        "shader_float16_in_float32",
        "shader_barycentrics",
        "mesh_shader",
        "mesh_shader_point_topology",
        "texture_and_sampler_binding_array_non_uniform_indexing",
        "buffer_binding_array_non_uniform_indexing",
        "storage_texture_binding_array_non_uniform_indexing",
        "storage_buffer_binding_array_non_uniform_indexing",
        "cooperative_matrix",
        "per_vertex",
        "ray_tracing_pipeline",
        "draw_index",
        "acceleration_structure_binding_array",
        "memory_decoration_coherent",
        "memory_decoration_volatile",
        "shader_int16",
    ]
}

fn capability_bit_table() -> (r: [u64; 44])
    ensures
        r@ == capability_bits(),
{
    [
        0x1,
        0x2,
        0x4,
        0x8,
        0x10,
        0x20,
        0x40,
        0x80,
        0x100,
        0x200,
        0x400,
        0x800,
        0x1000,
        0x2000,
        0x4000,
        0x8000,
        0x10000,
        0x20000,
        0x40000,
        0x80000,
        0x100000,
        0x200000,
        0x400000,
        0x800000,
        0x1000000,
        0x2000000,
        0x4000000,
        0x8000000,
        0x10000000,
        0x20000000,
        0x40000000,
        0x80000000,
        0x100000000,
        0x200000000,
        0x400000000,
        0x800000000,
        0x1000000000,
        0x2000000000,
        0x4000000000,
        0x8000000000,
        0x10000000000,
        0x20000000000,
        0x40000000000,
        0x80000000000,
    ]
}

/// The names of the stages where subgroup operations may run, in table order.
pub open spec fn subgroup_stage_names() -> Seq<&'static str> {
    seq![
        "vertex",
        "fragment",
        "compute",
        "mesh",
        "task",
        "ray_generation",
        "any_hit",
        "closest_hit",
        "miss",
    ]
}

/// The flag bit of each of the stages where subgroup operations may run, at the index of its name.
pub open spec fn subgroup_stage_bits() -> Seq<u64> {
    seq![
        0x1,
        0x2,
        0x4,
        0x8,
        0x10,
        0x20,
        0x40,
        0x80,
        0x100,
    ]
}

pub fn subgroup_stage_name_table() -> (r: [&'static str; 9])
    ensures
        r@ == subgroup_stage_names(),
{
    [
        "vertex",
        "fragment",
        "compute",
        "mesh",
        "task",
        "ray_generation",
        "any_hit",
        "closest_hit",
        "miss",
    ]
}

fn subgroup_stage_bit_table() -> (r: [u64; 9])
    ensures
        r@ == subgroup_stage_bits(),
{
    [
        0x1,
        0x2,
        0x4,
        0x8,
        0x10,
        0x20,
        0x40,
        0x80,
        0x100,
    ]
}

/// The names of the subgroup operations, in table order.
pub open spec fn subgroup_operation_names() -> Seq<&'static str> {
    seq![
        "basic",
        "vote",
        "arithmetic",
        "ballot",
        "shuffle",
        "shuffle_relative",
        "quad_fragment_compute",
    ]
}

/// The flag bit of each of the subgroup operations, at the index of its name.
pub open spec fn subgroup_operation_bits() -> Seq<u64> {
    seq![
        0x1,
        0x2,
        0x4,
        0x8,
        0x10,
        0x20,
        0x80,
    ]
}

pub fn subgroup_operation_name_table() -> (r: [&'static str; 7])
    ensures
        r@ == subgroup_operation_names(),
{
    [
        "basic",
        "vote",
        "arithmetic",
        "ballot",
        "shuffle",
        "shuffle_relative",
        "quad_fragment_compute",
    ]
}

fn subgroup_operation_bit_table() -> (r: [u64; 7])
    ensures
        r@ == subgroup_operation_bits(),
{
    [
        0x1,
        0x2,
        0x4,
        0x8,
        0x10,
        0x20,
        0x80,
    ]
}

} // verus!

verus! {

/// The union of all flags of a table.
pub open spec fn flag_union(flags: Seq<u64>) -> u64
    decreases flags.len(),
{
    if flags.len() == 0 {
        0
    } else {
        flag_union(flags.drop_last()) | flags.last()
    }
}

fn union_of_flags(flags: &[u64]) -> (r: u64)
    ensures
        r == flag_union(flags@),
{
    let n = flags.len();
    let mut out: u64 = 0;
    let mut i: usize = 0;
    while i < n
        invariant
            n == flags@.len(),
            i <= n,
            out == flag_union(flags@.take(i as int)),
        decreases n - i,
    {
        assert(flags@.take(i + 1).drop_last() =~= flags@.take(i as int));
        out = out | flags[i];
        i = i + 1;
    }
    assert(flags@.take(n as int) =~= flags@);
    out
}

proof fn lemma_or_below_256(a: u64, b: u64)
    by (bit_vector)
    requires
        a < 256,
        b < 256,
    ensures
        (a | b) < 256,
{
}

proof fn lemma_or_below_65536(a: u64, b: u64)
    by (bit_vector)
    requires
        a < 65536,
        b < 65536,
    ensures
        (a | b) < 65536,
{
}

/// `limit` bounds every union of two values below it.
pub open spec fn or_closed(limit: u64) -> bool {
    forall|a: u64, b: u64| a < limit && b < limit ==> #[trigger] (a | b) < limit
}

/// Every flag of a table is below `limit`.
pub open spec fn flags_below(flags: Seq<u64>, limit: u64) -> bool {
    forall|i: int| 0 <= i < flags.len() ==> #[trigger] flags[i] < limit
}

proof fn lemma_or_closed_256()
    ensures
        or_closed(256),
{
    assert forall|a: u64, b: u64| a < 256 && b < 256 implies #[trigger] (a | b) < 256 by {
        lemma_or_below_256(a, b);
    }
}

proof fn lemma_or_closed_65536()
    ensures
        or_closed(65536),
{
    assert forall|a: u64, b: u64| a < 65536 && b < 65536 implies #[trigger] (a | b) < 65536 by {
        lemma_or_below_65536(a, b);
    }
}

proof fn lemma_lookup_below(names: Seq<&str>, flags: Seq<u64>, name: Seq<char>, limit: u64)
    requires
        flags_below(flags, limit),
    ensures
        table_lookup(names, flags, name) matches Some(f) ==> f < limit,
    decreases names.len(),
{
    if names.len() != 0 && flags.len() != 0 && names[0]@ != name {
        assert(flags_below(flags.drop_first(), limit)) by {
            assert forall|i: int| 0 <= i < flags.drop_first().len() implies #[trigger] flags.drop_first()[i] < limit by {
                assert(flags.drop_first()[i] == flags[i + 1]);
            }
        }
        lemma_lookup_below(names.drop_first(), flags.drop_first(), name, limit);
    }
}

proof fn lemma_fold_below(
    list: Seq<String>,
    names: Seq<&str>,
    flags: Seq<u64>,
    acc: u64,
    limit: u64,
)
    requires
        or_closed(limit),
        flags_below(flags, limit),
        acc < limit,
    ensures
        flag_fold(list, names, flags, acc) matches Ok(b) ==> b < limit,
    decreases list.len(),
{
    if list.len() != 0 {
        lemma_lookup_below(names, flags, list[0]@, limit);
        if let Some(f) = table_lookup(names, flags, list[0]@) {
            assert((acc | f) < limit);
            lemma_fold_below(list.drop_first(), names, flags, acc | f, limit);
        }
    }
}

proof fn lemma_union_below(flags: Seq<u64>, limit: u64)
    requires
        or_closed(limit),
        flags_below(flags, limit),
        0 < limit,
    ensures
        flag_union(flags) < limit,
    decreases flags.len(),
{
    if flags.len() != 0 {
        assert(flags_below(flags.drop_last(), limit)) by {
            assert forall|i: int| 0 <= i < flags.drop_last().len() implies #[trigger] flags.drop_last()[i] < limit by {
                assert(flags.drop_last()[i] == flags[i]);
            }
        }
        lemma_union_below(flags.drop_last(), limit);
        assert(flags[flags.len() - 1] < limit);
        assert((flag_union(flags.drop_last()) | flags.last()) < limit);
    }
}

/// What a list of validation pass names selects.
pub open spec fn spec_validation_flags(list: Seq<String>) -> Result<u64, Seq<char>> {
    spec_flag_list(
        list,
        flag_union(validation_flag_bits()),
        0,
        validation_flag_names(),
        validation_flag_bits(),
    )
}

/// What a list of capability names selects.
pub open spec fn spec_capabilities(list: Seq<String>) -> Result<u64, Seq<char>> {
    spec_flag_list(list, flag_union(capability_bits()), 0, capability_names(), capability_bits())
}

/// What a list of subgroup stage names selects.
pub open spec fn spec_subgroup_stages(list: Seq<String>) -> Result<u64, Seq<char>> {
    spec_flag_list(
        list,
        flag_union(subgroup_stage_bits()),
        0,
        subgroup_stage_names(),
        subgroup_stage_bits(),
    )
}

/// What a list of subgroup operation names selects.
pub open spec fn spec_subgroup_operations(list: Seq<String>) -> Result<u64, Seq<char>> {
    spec_flag_list(
        list,
        flag_union(subgroup_operation_bits()),
        0,
        subgroup_operation_names(),
        subgroup_operation_bits(),
    )
}

/// Parses validation pass names into the bits of naga's `ValidationFlags`.
pub fn parse_validation_flags(list: &[String]) -> (r: Result<u8, Diagnostic>)
    ensures
        match spec_validation_flags(list@) {
            Ok(bits) => r is Ok && r->Ok_0 as u64 == bits,
            Err(name) => r is Err && is_usage_error(
                r->Err_0,
                flag_list_error("flag"@, name, validation_flag_names()),
            ),
        },
{
    let names = validation_flag_name_table();
    let bits = validation_flag_bit_table();
    let all = union_of_flags(&bits);
    proof {
        lemma_or_closed_256();
        assert(flags_below(bits@, 256));
        lemma_union_below(bits@, 256);
        lemma_fold_below(list@, names@, bits@, 0, 256);
    }
    let v = parse_flag_list(list, all, 0, "flag", &names, &bits)?;
    Ok(v as u8)
}

/// Parses capability names into the bits of naga's `Capabilities`.
pub fn parse_capabilities(list: &[String]) -> (r: Result<u64, Diagnostic>)
    ensures
        match spec_capabilities(list@) {
            Ok(bits) => r == Ok::<u64, Diagnostic>(bits),
            Err(name) => r is Err && is_usage_error(
                r->Err_0,
                flag_list_error("capability"@, name, capability_names()),
            ),
        },
{
    let names = capability_name_table();
    let bits = capability_bit_table();
    let all = union_of_flags(&bits);
    parse_flag_list(list, all, 0, "capability", &names, &bits)
}

/// Parses subgroup stage names into the bits of naga's `ShaderStages`.
pub fn parse_subgroup_stages(list: &[String]) -> (r: Result<u16, Diagnostic>)
    ensures
        match spec_subgroup_stages(list@) {
            Ok(bits) => r is Ok && r->Ok_0 as u64 == bits,
            Err(name) => r is Err && is_usage_error(
                r->Err_0,
                flag_list_error("subgroup stage"@, name, subgroup_stage_names()),
            ),
        },
{
    let names = subgroup_stage_name_table();
    let bits = subgroup_stage_bit_table();
    let all = union_of_flags(&bits);
    proof {
        lemma_or_closed_65536();
        assert(flags_below(bits@, 65536));
        lemma_union_below(bits@, 65536);
        lemma_fold_below(list@, names@, bits@, 0, 65536);
    }
    let v = parse_flag_list(list, all, 0, "subgroup stage", &names, &bits)?;
    Ok(v as u16)
}

/// Parses subgroup operation names into the bits of naga's `SubgroupOperationSet`.
pub fn parse_subgroup_operations(list: &[String]) -> (r: Result<u8, Diagnostic>)
    ensures
        match spec_subgroup_operations(list@) {
            Ok(bits) => r is Ok && r->Ok_0 as u64 == bits,
            Err(name) => r is Err && is_usage_error(
                r->Err_0,
                flag_list_error("subgroup operation"@, name, subgroup_operation_names()),
            ),
        },
{
    let names = subgroup_operation_name_table();
    let bits = subgroup_operation_bit_table();
    let all = union_of_flags(&bits);
    proof {
        lemma_or_closed_256();
        assert(flags_below(bits@, 256));
        lemma_union_below(bits@, 256);
        lemma_fold_below(list@, names@, bits@, 0, 256);
    }
    let v = parse_flag_list(list, all, 0, "subgroup operation", &names, &bits)?;
    Ok(v as u8)
}

} // verus!

verus! {

/// Validator strictness. Every field is optional and defaults to `"all"`;
/// pass `"all"` explicitly inside a list for the same effect, or an empty
/// list for none. Names mirror naga exactly (lowercased).
pub struct ValidationOptions {
    /// Which validation passes run (`expressions`, `blocks`,
    /// `control_flow_uniformity`, `struct_layouts`, `constants`, `bindings`).
    pub flags: Option<Vec<String>>,
    /// Allowed IR capabilities, e.g. `"shader_float16"`, `"subgroup"`.
    pub capabilities: Option<Vec<String>>,
    /// Stages where subgroup operations are permitted.
    pub subgroup_stages: Option<Vec<String>>,
    /// Permitted subgroup operations.
    pub subgroup_operations: Option<Vec<String>>,
}

/// The bits of naga's validator settings that a set of options selects.
#[derive(Debug, Clone, Copy, PartialEq, Eq, Structural)]
pub struct ValidatorConfig {
    /// Bits of `ValidationFlags`.
    pub flags: u8,
    /// Bits of `Capabilities`.
    pub capabilities: u64,
    /// Bits of `ShaderStages` where subgroup operations may run.
    pub stages: u16,
    /// Bits of `SubgroupOperationSet`.
    pub operations: u8,
}

/// The validation passes that a field selects, or the message for its first
/// unknown name. An absent field selects all of them.
pub open spec fn validation_flags_choice(field: Option<Vec<String>>) -> Result<u64, Seq<char>> {
    match field {
        None => Ok(flag_union(validation_flag_bits())),
        Some(list) => match spec_validation_flags(list@) {
            Ok(bits) => Ok(bits),
            Err(name) => Err(flag_list_error("flag"@, name, validation_flag_names())),
        },
    }
}

/// The capabilities that a field selects, or the message for its first
/// unknown name. An absent field selects all of them.
pub open spec fn capabilities_choice(field: Option<Vec<String>>) -> Result<u64, Seq<char>> {
    match field {
        None => Ok(flag_union(capability_bits())),
        Some(list) => match spec_capabilities(list@) {
            Ok(bits) => Ok(bits),
            Err(name) => Err(flag_list_error("capability"@, name, capability_names())),
        },
    }
}

/// The subgroup stages that a field selects, or the message for its first
/// unknown name. An absent field selects all of them.
pub open spec fn subgroup_stages_choice(field: Option<Vec<String>>) -> Result<u64, Seq<char>> {
    match field {
        None => Ok(flag_union(subgroup_stage_bits())),
        Some(list) => match spec_subgroup_stages(list@) {
            Ok(bits) => Ok(bits),
            Err(name) => Err(flag_list_error("subgroup stage"@, name, subgroup_stage_names())),
        },
    }
}

/// The subgroup operations that a field selects, or the message for its
/// first unknown name. An absent field selects all of them.
pub open spec fn subgroup_operations_choice(field: Option<Vec<String>>) -> Result<u64, Seq<char>> {
    match field {
        None => Ok(flag_union(subgroup_operation_bits())),
        Some(list) => match spec_subgroup_operations(list@) {
            Ok(bits) => Ok(bits),
            Err(name) => Err(
                flag_list_error("subgroup operation"@, name, subgroup_operation_names()),
            ),
        },
    }
}

/// The options that absent validation options stand for: every field absent.
pub open spec fn options_or_default(validation: Option<ValidationOptions>) -> ValidationOptions {
    match validation {
        Some(v) => v,
        None => ValidationOptions {
            flags: None,
            capabilities: None,
            subgroup_stages: None,
            subgroup_operations: None,
        },
    }
}

/// The validator settings that options select: the bits of the passes, the
/// capabilities, the subgroup stages and the subgroup operations, or the
/// message for the first unknown name, fields taken in that order.
pub open spec fn spec_validator_config(validation: Option<ValidationOptions>) -> Result<
    (u64, u64, u64, u64),
    Seq<char>,
> {
    let v = options_or_default(validation);
    match validation_flags_choice(v.flags) {
        Err(m) => Err(m),
        Ok(f) => match capabilities_choice(v.capabilities) {
            Err(m) => Err(m),
            Ok(c) => match subgroup_stages_choice(v.subgroup_stages) {
                Err(m) => Err(m),
                Ok(s) => match subgroup_operations_choice(v.subgroup_operations) {
                    Err(m) => Err(m),
                    Ok(o) => Ok((f, c, s, o)),
                },
            },
        },
    }
}

/// `config` holds the bits `bits`.
pub open spec fn config_holds(config: ValidatorConfig, bits: (u64, u64, u64, u64)) -> bool {
    &&& config.flags as u64 == bits.0
    &&& config.capabilities == bits.1
    &&& config.stages as u64 == bits.2
    &&& config.operations as u64 == bits.3
}

/// The bits of every validation flag.
pub open spec fn full_flags() -> u64 {
    flag_union(validation_flag_bits())
}

/// The bits of every validation flag.
pub(crate) fn all_validation_flags() -> (r: u8)
    ensures
        r as u64 == full_flags(),
{
    let bits = validation_flag_bit_table();
    let all = union_of_flags(&bits);
    proof {
        lemma_or_closed_256();
        assert(flags_below(bits@, 256));
        lemma_union_below(bits@, 256);
    }
    all as u8
}

fn all_subgroup_stages() -> (r: u16)
    ensures
        r as u64 == flag_union(subgroup_stage_bits()),
{
    let bits = subgroup_stage_bit_table();
    let all = union_of_flags(&bits);
    proof {
        lemma_or_closed_65536();
        assert(flags_below(bits@, 65536));
        lemma_union_below(bits@, 65536);
    }
    all as u16
}

fn all_subgroup_operations() -> (r: u8)
    ensures
        r as u64 == flag_union(subgroup_operation_bits()),
{
    let bits = subgroup_operation_bit_table();
    let all = union_of_flags(&bits);
    proof {
        lemma_or_closed_256();
        assert(flags_below(bits@, 256));
        lemma_union_below(bits@, 256);
    }
    all as u8
}

/// The validator settings that `validation` selects; absent options and
/// absent fields select everything.
pub fn validator_config(validation: Option<&ValidationOptions>) -> (r: Result<
    ValidatorConfig,
    Diagnostic,
>)
    ensures
        match spec_validator_config(
            match validation {
                Some(v) => Some(*v),
                None => None,
            },
        ) {
            Ok(bits) => r is Ok && config_holds(r->Ok_0, bits),
            Err(m) => r is Err && is_usage_error(r->Err_0, m),
        },
{
    let flags = match validation {
        Some(v) => match &v.flags {
            Some(list) => parse_validation_flags(list.as_slice())?,
            None => all_validation_flags(),
        },
        None => all_validation_flags(),
    };
    let capabilities = match validation {
        Some(v) => match &v.capabilities {
            Some(list) => parse_capabilities(list.as_slice())?,
            None => union_of_flags(&capability_bit_table()),
        },
        None => union_of_flags(&capability_bit_table()),
    };
    let stages = match validation {
        Some(v) => match &v.subgroup_stages {
            Some(list) => parse_subgroup_stages(list.as_slice())?,
            None => all_subgroup_stages(),
        },
        None => all_subgroup_stages(),
    };
    let operations = match validation {
        Some(v) => match &v.subgroup_operations {
            Some(list) => parse_subgroup_operations(list.as_slice())?,
            None => all_subgroup_operations(),
        },
        None => all_subgroup_operations(),
    };
    Ok(ValidatorConfig { flags, capabilities, stages, operations })
}

} // verus!
