//! The binding model: how a bind group layout entry becomes an engine
//! pipeline resource (array size, variable tier, resource flags, names) and
//! which of its bindings take dynamic offsets.

use crate::diligent_types as dil;
use crate::gpu_types as gpu;
use crate::mapping;
use crate::text;
use vstd::prelude::*;
use vstd::seq_lib::*;

verus! {

/// The engine array size of a binding: its count, or one for a single binding.
pub open spec fn binding_count_spec(entry: gpu::BindGroupLayoutEntry) -> u32 {
    match entry.count {
        Some(n) => n,
        None => 1,
    }
}

/// The array size of a binding, passed through verbatim (`None` is a single
/// binding).
pub fn binding_count(entry: &gpu::BindGroupLayoutEntry) -> (n: u32)
    ensures
        n == binding_count_spec(*entry),
{
    match entry.count {
        Some(n) => n,
        None => 1,
    }
}

/// The variable tier of a binding: dynamic for buffer bindings with a
/// dynamic offset, mutable for every other binding.
pub fn binding_var_type(entry: &gpu::BindGroupLayoutEntry) -> (t: dil::VariableType)
    ensures
        t == if entry.is_dynamic_buffer() {
            dil::VariableType::Dynamic
        } else {
            dil::VariableType::Mutable
        },
{
    match entry.ty {
        gpu::BindingType::Buffer { has_dynamic_offset: true, .. } => dil::VariableType::Dynamic,
        _ => dil::VariableType::Mutable,
    }
}

/// The smallest array count that marks a texture or sampler array as a
/// runtime-sized (unbounded) array.
pub const RUNTIME_ARRAY_MIN_COUNT: u32 = 64;

/// The resource flags of a binding: non-dynamic buffers never take dynamic
/// offsets; texture and sampler arrays with at least 64 elements are
/// runtime-sized arrays.
pub open spec fn resource_flags_spec(entry: gpu::BindGroupLayoutEntry, resource_type: dil::ShaderResourceType) -> u8 {
    (if resource_type.is_buffer() && !entry.is_dynamic_buffer() {
        dil::PIPELINE_RESOURCE_FLAG_NO_DYNAMIC_BUFFERS
    } else {
        0
    })
    | (if !resource_type.is_buffer() && entry.count.is_some()
        && binding_count_spec(entry) >= RUNTIME_ARRAY_MIN_COUNT {
        dil::PIPELINE_RESOURCE_FLAG_RUNTIME_ARRAY
    } else {
        0
    })
}

/// The pipeline resource flags of a binding of the given resource type.
pub fn binding_resource_flags(entry: &gpu::BindGroupLayoutEntry, resource_type: dil::ShaderResourceType) -> (flags: dil::PipelineResourceFlags)
    ensures
        flags == resource_flags_spec(*entry, resource_type),
{
    let is_buffer = match resource_type {
        dil::ShaderResourceType::ConstantBuffer | dil::ShaderResourceType::BufferSrv
        | dil::ShaderResourceType::BufferUav => true,
        _ => false,
    };
    let is_dynamic = match entry.ty {
        gpu::BindingType::Buffer { has_dynamic_offset: true, .. } => true,
        _ => false,
    };
    let no_dynamic = if is_buffer && !is_dynamic {
        dil::PIPELINE_RESOURCE_FLAG_NO_DYNAMIC_BUFFERS
    } else {
        0
    };
    let runtime = if !is_buffer && entry.count.is_some() && binding_count(entry) >= RUNTIME_ARRAY_MIN_COUNT {
        dil::PIPELINE_RESOURCE_FLAG_RUNTIME_ARRAY
    } else {
        0
    };
    no_dynamic | runtime
}

/// Whether `s` is in ascending order.
pub open spec fn ascending(s: Seq<u32>) -> bool {
    forall|i: int, j: int| 0 <= i < j < s.len() ==> s[i] <= s[j]
}

/// The binding numbers of the dynamic-offset buffer entries, in declaration
/// order.
pub open spec fn declared_dynamic_bindings(entries: Seq<gpu::BindGroupLayoutEntry>) -> Seq<u32>
    decreases entries.len(),
{
    if entries.len() == 0 {
        Seq::empty()
    } else {
        let rest = declared_dynamic_bindings(entries.drop_last());
        if entries.last().is_dynamic_buffer() {
            rest.push(entries.last().binding)
        } else {
            rest
        }
    }
}

/// Sorts binding numbers into ascending order.
pub fn sort_ascending(v: Vec<u32>) -> (r: Vec<u32>)
    ensures
        ascending(r@),
        r@.to_multiset() == v@.to_multiset(),
{
    let mut out: Vec<u32> = Vec::new();
    let mut i: usize = 0;
    proof {
        assert(v@.take(0) =~= Seq::<u32>::empty());
        assert(out@ =~= Seq::<u32>::empty());
        broadcast use vstd::multiset::group_multiset_axioms;
        assert(Seq::<u32>::empty().to_multiset() =~= vstd::multiset::Multiset::empty()) by {
            broadcast use vstd::seq_lib::group_to_multiset_ensures;
        }
    }
    while i < v.len()
        invariant
            i <= v.len(),
            ascending(out@),
            out@.to_multiset() == v@.take(i as int).to_multiset(),
        decreases v.len() - i,
    {
        let x = v[i];
        let mut pos: usize = 0;
        while pos < out.len() && out[pos] <= x
            invariant
                pos <= out.len(),
                forall|m: int| 0 <= m < pos ==> out@[m] <= x,
            decreases out.len() - pos,
        {
            pos = pos + 1;
        }
        let ghost before = out@;
        out.insert(pos, x);
        proof {
            to_multiset_insert(before, pos as int, x);
            assert(v@.take(i as int + 1) =~= v@.take(i as int).push(x));
            to_multiset_build(v@.take(i as int), x);
            assert forall|a: int, b: int| 0 <= a < b < out@.len() implies out@[a] <= out@[b] by {
                if b < pos {
                } else if b == pos {
                } else if a < pos {
                    assert(out@[b] == before[b - 1]);
                    assert(before[b - 1] >= x) by {
                        if pos < before.len() {
                            assert(before[pos as int] > x);
                        }
                    }
                } else if a == pos {
                    assert(before[b - 1] >= before[pos as int]);
                } else {
                }
            }
        }
        i = i + 1;
    }
    proof {
        assert(v@.take(v.len() as int) =~= v@);
    }
    out
}

/// The ascending binding numbers of the buffer entries with a dynamic
/// offset: the `set_bind_group` offset array maps onto them one-to-one,
/// whatever the order the layout declares them in.
pub fn dynamic_buffer_bindings(entries: &[gpu::BindGroupLayoutEntry]) -> (r: Vec<u32>)
    ensures
        ascending(r@),
        r@.to_multiset() == declared_dynamic_bindings(entries@).to_multiset(),
{
    let mut bindings: Vec<u32> = Vec::new();
    let mut i: usize = 0;
    while i < entries.len()
        invariant
            i <= entries.len(),
            bindings@ == declared_dynamic_bindings(entries@.take(i as int)),
        decreases entries.len() - i,
    {
        proof {
            assert(entries@.take(i as int + 1).drop_last() =~= entries@.take(i as int));
        }
        match entries[i].ty {
            gpu::BindingType::Buffer { has_dynamic_offset: true, .. } => {
                bindings.push(entries[i].binding);
            },
            _ => {},
        }
        i = i + 1;
    }
    proof {
        assert(entries@.take(entries.len() as int) =~= entries@);
    }
    sort_ascending(bindings)
}

/// The union of the visibilities of `entries`.
pub open spec fn visibility_union(entries: Seq<gpu::BindGroupLayoutEntry>) -> u32
    decreases entries.len(),
{
    if entries.len() == 0 {
        0
    } else {
        visibility_union(entries.drop_last()) | entries.last().visibility
    }
}

/// The stages a resource binding built from a layout is probed on: compute
/// alone when only compute sees the layout, the graphics stages otherwise
/// (any graphics stage makes the engine treat the layout as graphics).
pub open spec fn probe_stages_spec(all: u32) -> u32 {
    if gpu::has_all(all, gpu::SHADER_STAGE_COMPUTE) && !gpu::has_any(all, gpu::SHADER_STAGE_VERTEX_FRAGMENT) {
        gpu::SHADER_STAGE_COMPUTE
    } else {
        all & gpu::SHADER_STAGE_VERTEX_FRAGMENT
    }
}

/// The variable probe stages of a resource binding built from the layout
/// `entries`.
pub fn srb_variable_probe_stages(entries: &[gpu::BindGroupLayoutEntry]) -> (stages: gpu::ShaderStages)
    ensures
        stages == probe_stages_spec(visibility_union(entries@)),
{
    let mut all: u32 = 0;
    let mut i: usize = 0;
    while i < entries.len()
        invariant
            i <= entries.len(),
            all == visibility_union(entries@.take(i as int)),
        decreases entries.len() - i,
    {
        proof {
            assert(entries@.take(i as int + 1).drop_last() =~= entries@.take(i as int));
        }
        all = all | entries[i].visibility;
        i = i + 1;
    }
    proof {
        assert(entries@.take(entries.len() as int) =~= entries@);
    }
    if all & gpu::SHADER_STAGE_COMPUTE == gpu::SHADER_STAGE_COMPUTE && all & gpu::SHADER_STAGE_VERTEX_FRAGMENT == 0 {
        gpu::SHADER_STAGE_COMPUTE
    } else {
        all & gpu::SHADER_STAGE_VERTEX_FRAGMENT
    }
}

/// The canonical resource name of a binding: `binding_` and the binding
/// number in decimal.
pub open spec fn canonical_name_spec(binding: u32) -> Seq<char> {
    seq!['b', 'i', 'n', 'd', 'i', 'n', 'g', '_'] + text::decimal(binding as nat)
}

/// Distinct bindings get distinct canonical names.
pub proof fn lemma_canonical_names_unique(a: u32, b: u32)
    requires
        a != b,
    ensures
        canonical_name_spec(a) != canonical_name_spec(b),
{
    text::lemma_decimal_injective(a as nat, b as nat);
    if canonical_name_spec(a) == canonical_name_spec(b) {
        assert(canonical_name_spec(a).skip(8) =~= text::decimal(a as nat));
        assert(canonical_name_spec(b).skip(8) =~= text::decimal(b as nat));
    }
}

/// The canonical resource name of a binding, used when the shader names are
/// unknown.
pub fn canonical_prs_name(binding: u32) -> (name: String)
    ensures
        name@ == canonical_name_spec(binding),
{
    let prefix = "binding_";
    proof {
        reveal_strlit("binding_");
    }
    let mut name = String::from_str(prefix);
    text::append_decimal(&mut name, binding as u64);
    name
}


/// A resource name a shader declares for a (group, binding) slot.
#[derive(Clone, Debug, PartialEq, Eq)]
pub struct ShaderResourceName {
    pub group: u32,
    pub binding: u32,
    pub name: String,
}

/// What the binding model reads of a shader module's global variable: its
/// resource slot, its name and whether it lives in the immediate-constants
/// address space.
#[derive(Clone, Debug, PartialEq, Eq)]
pub struct ModuleGlobal {
    pub binding: Option<(u32, u32)>,
    pub name: Option<String>,
    pub immediate: bool,
}

/// What the binding model reads of a shader module: the stages of its
/// entry points and its global variables.
#[derive(Clone, Debug, PartialEq, Eq)]
pub struct ShaderModuleInfo {
    pub entry_stages: Vec<gpu::PipelineStage>,
    pub globals: Vec<ModuleGlobal>,
}

/// The (group, binding) -> name pairs of the globals that have both.
pub open spec fn declared_names(globals: Seq<ModuleGlobal>) -> Seq<(u32, u32, Seq<char>)>
    decreases globals.len(),
{
    if globals.len() == 0 {
        Seq::empty()
    } else {
        let rest = declared_names(globals.drop_last());
        let g = globals.last();
        match (g.binding, g.name) {
            (Some((group, binding)), Some(name)) => rest.push((group, binding, name@)),
            _ => rest,
        }
    }
}

/// The view of a list of shader resource names.
pub open spec fn names_view(names: Seq<ShaderResourceName>) -> Seq<(u32, u32, Seq<char>)> {
    names.map_values(|n: ShaderResourceName| (n.group, n.binding, n.name@))
}

/// Extracts the (group, binding) -> name pairs of a module's globals, in
/// declaration order.
pub fn shader_resource_names(globals: &[ModuleGlobal]) -> (names: Vec<ShaderResourceName>)
    ensures
        names_view(names@) == declared_names(globals@),
{
    let mut names: Vec<ShaderResourceName> = Vec::new();
    let mut i: usize = 0;
    while i < globals.len()
        invariant
            i <= globals.len(),
            names_view(names@) == declared_names(globals@.take(i as int)),
        decreases globals.len() - i,
    {
        proof {
            assert(globals@.take(i as int + 1).drop_last() =~= globals@.take(i as int));
        }
        let ghost before = names@;
        match (&globals[i].binding, &globals[i].name) {
            (Some((group, binding)), Some(name)) => {
                names.push(ShaderResourceName { group: *group, binding: *binding, name: name.clone() });
                proof {
                    assert(names_view(names@) =~= names_view(before).push((*group, *binding, name@)));
                }
            },
            _ => {},
        }
        i = i + 1;
    }
    proof {
        assert(globals@.take(globals.len() as int) =~= globals@);
    }
    names
}

/// The name a list declares for (group, binding): the last declaration of
/// that slot, as in a map built from the list.
pub open spec fn lookup_name(names: Seq<(u32, u32, Seq<char>)>, group: u32, binding: u32) -> Option<Seq<char>>
    decreases names.len(),
{
    if names.len() == 0 {
        None
    } else if names.last().0 == group && names.last().1 == binding {
        Some(names.last().2)
    } else {
        lookup_name(names.drop_last(), group, binding)
    }
}

/// The shader name of (group, binding) in the first list that declares it.
pub open spec fn lookup_in_lists(lists: Seq<Seq<(u32, u32, Seq<char>)>>, group: u32, binding: u32) -> Option<Seq<char>>
    decreases lists.len(),
{
    if lists.len() == 0 {
        None
    } else {
        match lookup_name(lists[0], group, binding) {
            Some(n) => Some(n),
            None => lookup_in_lists(lists.drop_first(), group, binding),
        }
    }
}

/// The views of several name lists.
pub open spec fn lists_view(lists: Seq<Vec<ShaderResourceName>>) -> Seq<Seq<(u32, u32, Seq<char>)>> {
    lists.map_values(|l: Vec<ShaderResourceName>| names_view(l@))
}

/// The name `names` declares for (group, binding), if any.
fn find_name(names: &Vec<ShaderResourceName>, group: u32, binding: u32) -> (r: Option<String>)
    ensures
        match lookup_name(names_view(names@), group, binding) {
            Some(n) => r matches Some(s) && s@ == n,
            None => r.is_none(),
        },
{
    let mut i: usize = names.len();
    proof {
        assert(names@.take(names.len() as int) =~= names@);
    }
    while i > 0
        invariant
            i <= names.len(),
            lookup_name(names_view(names@), group, binding)
                == lookup_name(names_view(names@.take(i as int)), group, binding),
        decreases i,
    {
        let ghost prefix = names@.take(i as int);
        proof {
            assert(names_view(prefix).drop_last() =~= names_view(names@.take(i as int - 1)));
            assert(names_view(prefix).last() == names_view(names@)[i - 1]);
        }
        let n = &names[i - 1];
        if n.group == group && n.binding == binding {
            return Some(n.name.clone());
        }
        i = i - 1;
    }
    proof {
        assert(names_view(names@.take(0)) =~= Seq::empty());
    }
    None
}

/// The shader variable name for (group, binding): the name the first list
/// declares for it, or the canonical `binding_N` name when none does.
pub fn shader_name_for(names: &[Vec<ShaderResourceName>], group: u32, binding: u32) -> (name: String)
    ensures
        name@ == match lookup_in_lists(lists_view(names@), group, binding) {
            Some(n) => n,
            None => canonical_name_spec(binding),
        },
{
    let mut i: usize = 0;
    proof {
        assert(names@.skip(0) =~= names@);
    }
    while i < names.len()
        invariant
            i <= names.len(),
            lookup_in_lists(lists_view(names@), group, binding)
                == lookup_in_lists(lists_view(names@.skip(i as int)), group, binding),
        decreases names.len() - i,
    {
        let ghost tail = names@.skip(i as int);
        proof {
            assert(lists_view(tail).drop_first() =~= lists_view(names@.skip(i as int + 1)));
            assert(lists_view(tail)[0] == names_view(names@[i as int]@));
        }
        match find_name(&names[i], group, binding) {
            Some(n) => return n,
            None => {},
        }
        i = i + 1;
    }
    proof {
        assert(lists_view(names@.skip(names.len() as int)) =~= Seq::empty());
    }
    canonical_prs_name(binding)
}

/// An engine pipeline resource built from a bind group layout entry.
#[derive(Clone, Debug, PartialEq, Eq)]
pub struct PipelineResourceDesc {
    pub name: String,
    pub shader_stages: u32,
    pub array_size: u32,
    pub resource_type: dil::ShaderResourceType,
    pub var_type: dil::VariableType,
    pub flags: u8,
}

/// A binding whose type has no engine resource type (an external texture).
#[derive(Clone, Copy, Debug, PartialEq, Eq, Structural)]
pub struct UnsupportedBinding {
    pub group: u32,
    pub binding: u32,
}

/// The resource an entry becomes, with the given name.
pub open spec fn resource_desc_spec(entry: gpu::BindGroupLayoutEntry, resource_type: dil::ShaderResourceType, desc: PipelineResourceDesc) -> bool {
    &&& desc.shader_stages == mapping::shader_stages_spec(entry.visibility)
    &&& desc.array_size == binding_count_spec(entry)
    &&& desc.resource_type == resource_type
    &&& desc.var_type == (if entry.is_dynamic_buffer() { dil::VariableType::Dynamic } else { dil::VariableType::Mutable })
    &&& desc.flags == resource_flags_spec(entry, resource_type)
}

/// Builds the pipeline resource of a layout entry in group `group`, named
/// `name` (the shader's variable name: resources match shader variables by
/// name). The array size is the layout count verbatim.
pub fn pipeline_resource_desc(group: u32, entry: &gpu::BindGroupLayoutEntry, name: String) -> (r: Result<PipelineResourceDesc, UnsupportedBinding>)
    ensures
        match mapping::resource_type_spec(entry.ty) {
            Some(t) => r matches Ok(d) && d.name@ == name@ && resource_desc_spec(*entry, t, d),
            None => r == Err::<PipelineResourceDesc, UnsupportedBinding>(UnsupportedBinding { group, binding: entry.binding }),
        },
{
    let resource_type = match mapping::binding_type_to_resource_type(&entry.ty) {
        Some(t) => t,
        None => return Err(UnsupportedBinding { group, binding: entry.binding }),
    };
    Ok(PipelineResourceDesc {
        name,
        shader_stages: mapping::shader_stages(entry.visibility),
        array_size: binding_count(entry),
        resource_type,
        var_type: binding_var_type(entry),
        flags: binding_resource_flags(entry, resource_type),
    })
}

/// The bit a shader stage contributes to the immediate resource's probe
/// stages: only the vertex, fragment and compute stages count.
pub open spec fn probe_stage_bit(stage: gpu::PipelineStage) -> u32 {
    match stage {
        gpu::PipelineStage::Vertex => gpu::SHADER_STAGE_VERTEX,
        gpu::PipelineStage::Fragment => gpu::SHADER_STAGE_FRAGMENT,
        gpu::PipelineStage::Compute => gpu::SHADER_STAGE_COMPUTE,
        _ => 0,
    }
}

/// The union of `f` over a list of stages.
pub open spec fn stage_union(stages: Seq<gpu::PipelineStage>, f: spec_fn(gpu::PipelineStage) -> u32) -> u32
    decreases stages.len(),
{
    if stages.len() == 0 {
        0
    } else {
        stage_union(stages.drop_last(), f) | f(stages.last())
    }
}

/// The union of `f` over the entry-point stages of the present modules.
pub open spec fn module_union(modules: Seq<Option<ShaderModuleInfo>>, f: spec_fn(gpu::PipelineStage) -> u32) -> u32
    decreases modules.len(),
{
    if modules.len() == 0 {
        0
    } else {
        let rest = module_union(modules.drop_last(), f);
        match modules.last() {
            Some(m) => rest | stage_union(m.entry_stages@, f),
            None => rest,
        }
    }
}

/// `acc | f(stage)` for every entry stage of `module`, folded onto `acc`.
fn fold_entry_stages(acc: u32, module: &ShaderModuleInfo, immediate_probe: bool) -> (r: u32)
    ensures
        immediate_probe ==> r == acc | stage_union(module.entry_stages@, |s: gpu::PipelineStage| probe_stage_bit(s)),
        !immediate_probe ==> r == acc | stage_union(module.entry_stages@, |s: gpu::PipelineStage| mapping::shader_type_spec(s)),
{
    let ghost f: spec_fn(gpu::PipelineStage) -> u32 = if immediate_probe {
        |s: gpu::PipelineStage| probe_stage_bit(s)
    } else {
        |s: gpu::PipelineStage| mapping::shader_type_spec(s)
    };
    let mut bits: u32 = acc;
    let mut j: usize = 0;
    let stages = &module.entry_stages;
    proof {
        let z = acc;
        assert(z | 0u32 == z) by (bit_vector);
        assert(stages@.take(0) =~= Seq::<gpu::PipelineStage>::empty());
    }
    while j < stages.len()
        invariant
            j <= stages.len(),
            stages == &module.entry_stages,
            f == (if immediate_probe {
                |s: gpu::PipelineStage| probe_stage_bit(s)
            } else {
                |s: gpu::PipelineStage| mapping::shader_type_spec(s)
            }),
            bits == acc | stage_union(stages@.take(j as int), f),
        decreases stages.len() - j,
    {
        let stage = stages[j];
        let bit: u32 = if immediate_probe {
            match stage {
                gpu::PipelineStage::Vertex => gpu::SHADER_STAGE_VERTEX,
                gpu::PipelineStage::Fragment => gpu::SHADER_STAGE_FRAGMENT,
                gpu::PipelineStage::Compute => gpu::SHADER_STAGE_COMPUTE,
                _ => 0,
            }
        } else {
            mapping::shader_type_from_stage(stage)
        };
        proof {
            assert(stages@.take(j as int + 1).drop_last() =~= stages@.take(j as int));
            let u = stage_union(stages@.take(j as int), f);
            assert(bit == f(stage));
            assert((acc | u) | bit == acc | (u | bit)) by (bit_vector);
        }
        bits = bits | bit;
        j = j + 1;
    }
    proof {
        assert(stages@.take(stages.len() as int) =~= stages@);
    }
    bits
}

/// The probe stages of the immediate-constants resource: the union of the
/// vertex, fragment and compute entry-point stages of the present modules.
pub fn immediate_prs_stages(modules: &[Option<ShaderModuleInfo>]) -> (stages: gpu::ShaderStages)
    ensures
        stages == module_union(modules@, |s: gpu::PipelineStage| probe_stage_bit(s)),
{
    immediate_stage_bits(modules, true)
}

/// The union, over the present modules' entry stages, of the probe bit
/// (`immediate_probe`) or of the engine shader type.
fn immediate_stage_bits(modules: &[Option<ShaderModuleInfo>], immediate_probe: bool) -> (bits: u32)
    ensures
        immediate_probe ==> bits == module_union(modules@, |s: gpu::PipelineStage| probe_stage_bit(s)),
        !immediate_probe ==> bits == module_union(modules@, |s: gpu::PipelineStage| mapping::shader_type_spec(s)),
{
    let ghost f: spec_fn(gpu::PipelineStage) -> u32 = if immediate_probe {
        |s: gpu::PipelineStage| probe_stage_bit(s)
    } else {
        |s: gpu::PipelineStage| mapping::shader_type_spec(s)
    };
    let mut bits: u32 = 0;
    let mut i: usize = 0;
    proof {
        assert(modules@.take(0) =~= Seq::<Option<ShaderModuleInfo>>::empty());
    }
    while i < modules.len()
        invariant
            i <= modules.len(),
            f == (if immediate_probe {
                |s: gpu::PipelineStage| probe_stage_bit(s)
            } else {
                |s: gpu::PipelineStage| mapping::shader_type_spec(s)
            }),
            bits == module_union(modules@.take(i as int), f),
        decreases modules.len() - i,
    {
        proof {
            assert(modules@.take(i as int + 1).drop_last() =~= modules@.take(i as int));
        }
        match &modules[i] {
            Some(m) => {
                bits = fold_entry_stages(bits, m, immediate_probe);
            },
            None => {},
        }
        i = i + 1;
    }
    proof {
        assert(modules@.take(modules.len() as int) =~= modules@);
    }
    bits
}

/// The name of the first named immediate-constants global of a module.
pub open spec fn first_immediate_name(globals: Seq<ModuleGlobal>) -> Option<Seq<char>>
    decreases globals.len(),
{
    if globals.len() == 0 {
        None
    } else if globals[0].immediate && globals[0].name is Some {
        Some(globals[0].name.unwrap()@)
    } else {
        first_immediate_name(globals.drop_first())
    }
}

/// The name of the first named immediate-constants global over the present
/// modules, in order.
pub open spec fn immediate_name_spec(modules: Seq<Option<ShaderModuleInfo>>) -> Option<Seq<char>>
    decreases modules.len(),
{
    if modules.len() == 0 {
        None
    } else {
        let here = match modules[0] {
            Some(m) => first_immediate_name(m.globals@),
            None => None,
        };
        match here {
            Some(n) => Some(n),
            None => immediate_name_spec(modules.drop_first()),
        }
    }
}

/// The first named immediate global of one module.
fn module_immediate_name(module: &ShaderModuleInfo) -> (r: Option<String>)
    ensures
        match first_immediate_name(module.globals@) {
            Some(n) => r matches Some(s) && s@ == n,
            None => r.is_none(),
        },
{
    let globals = &module.globals;
    let mut j: usize = 0;
    proof {
        assert(globals@.skip(0) =~= globals@);
    }
    while j < globals.len()
        invariant
            j <= globals.len(),
            globals == &module.globals,
            first_immediate_name(globals@) == first_immediate_name(globals@.skip(j as int)),
        decreases globals.len() - j,
    {
        proof {
            assert(globals@.skip(j as int).drop_first() =~= globals@.skip(j as int + 1));
            assert(globals@.skip(j as int)[0] == globals@[j as int]);
        }
        if globals[j].immediate {
            match &globals[j].name {
                Some(n) => return Some(n.clone()),
                None => {},
            }
        }
        j = j + 1;
    }
    None
}

/// The name of the shader's immediate-constants global, when a module
/// declares a named one (the first over the modules, in order).
pub fn immediate_global_name(modules: &[Option<ShaderModuleInfo>]) -> (r: Option<String>)
    ensures
        match immediate_name_spec(modules@) {
            Some(n) => r matches Some(s) && s@ == n,
            None => r.is_none(),
        },
{
    let mut i: usize = 0;
    proof {
        assert(modules@.skip(0) =~= modules@);
    }
    while i < modules.len()
        invariant
            i <= modules.len(),
            immediate_name_spec(modules@) == immediate_name_spec(modules@.skip(i as int)),
        decreases modules.len() - i,
    {
        proof {
            assert(modules@.skip(i as int).drop_first() =~= modules@.skip(i as int + 1));
            assert(modules@.skip(i as int)[0] == modules@[i as int]);
        }
        match &modules[i] {
            Some(m) => {
                match module_immediate_name(m) {
                    Some(n) => return Some(n),
                    None => {},
                }
            },
            None => {},
        }
        i = i + 1;
    }
    None
}

/// The most 32-bit constants an inline-constants resource can hold.
pub const MAX_INLINE_CONSTANTS: u32 = 64;

/// Immediate constants larger than the engine's inline-constants limit.
#[derive(Clone, Copy, Debug, PartialEq, Eq, Structural)]
pub struct ImmediateSizeTooLarge {
    pub size_bytes: u32,
    pub size_dwords: u32,
}

impl ImmediateSizeTooLarge {
    /// The error message.
    pub fn message(&self) -> (s: String)
        ensures
            s@ == "immediate constants size "@ + text::decimal(self.size_bytes as nat)
                + " bytes exceeds the Diligent maximum of 64 DWORDs ("@ + text::decimal(self.size_dwords as nat)
                + " dwords requested)"@,
    {
        let mut s = String::from_str("immediate constants size ");
        text::append_decimal(&mut s, self.size_bytes as u64);
        s.append(" bytes exceeds the Diligent maximum of 64 DWORDs (");
        text::append_decimal(&mut s, self.size_dwords as u64);
        s.append(" dwords requested)");
        s
    }
}

/// The number of 32-bit constants that hold `size` bytes.
pub open spec fn dwords_spec(size: u32) -> int {
    (size as int + 3) / 4
}

/// The immediate-constants resource of a pipeline layout: `None` when the
/// layout has no immediates or no module declares a named immediate global;
/// an error when the constants exceed the inline-constants limit; otherwise
/// a mutable inline-constants buffer, named after the global, sized in
/// 32-bit constants and visible to every entry-point stage of the modules.
pub fn immediate_resource_desc(modules: &[Option<ShaderModuleInfo>], immediate_size: u32) -> (r: Result<Option<PipelineResourceDesc>, ImmediateSizeTooLarge>)
    ensures
        immediate_size == 0 ==> r == Ok::<Option<PipelineResourceDesc>, ImmediateSizeTooLarge>(None),
        immediate_size != 0 && immediate_name_spec(modules@) is None ==> r == Ok::<Option<PipelineResourceDesc>, ImmediateSizeTooLarge>(None),
        immediate_size != 0 && immediate_name_spec(modules@) is Some && dwords_spec(immediate_size) > MAX_INLINE_CONSTANTS
            ==> r == Err::<Option<PipelineResourceDesc>, ImmediateSizeTooLarge>(ImmediateSizeTooLarge { size_bytes: immediate_size, size_dwords: dwords_spec(immediate_size) as u32 }),
        immediate_size != 0 && immediate_name_spec(modules@) is Some && dwords_spec(immediate_size) <= MAX_INLINE_CONSTANTS
            ==> (r matches Ok(Some(d)) && {
                &&& d.name@ == immediate_name_spec(modules@).unwrap()
                &&& d.shader_stages == module_union(modules@, |s: gpu::PipelineStage| mapping::shader_type_spec(s))
                &&& d.array_size == dwords_spec(immediate_size)
                &&& d.resource_type == dil::ShaderResourceType::ConstantBuffer
                &&& d.var_type == dil::VariableType::Mutable
                &&& d.flags == dil::PIPELINE_RESOURCE_FLAG_INLINE_CONSTANTS
            }),
{
    if immediate_size == 0 {
        return Ok(None);
    }
    let name = match immediate_global_name(modules) {
        Some(n) => n,
        None => return Ok(None),
    };
    let size_dwords: u32 = immediate_size / 4 + if immediate_size % 4 != 0 { 1u32 } else { 0u32 };
    assert(size_dwords == dwords_spec(immediate_size));
    if size_dwords > MAX_INLINE_CONSTANTS {
        return Err(ImmediateSizeTooLarge { size_bytes: immediate_size, size_dwords });
    }
    let stages = immediate_stage_bits(modules, false);
    Ok(Some(PipelineResourceDesc {
        name,
        shader_stages: stages,
        array_size: size_dwords,
        resource_type: dil::ShaderResourceType::ConstantBuffer,
        var_type: dil::VariableType::Mutable,
        flags: dil::PIPELINE_RESOURCE_FLAG_INLINE_CONSTANTS,
    }))
}

/// The index at which an entry with binding `key` goes in `s`: before the
/// first entry whose binding is greater.
pub open spec fn insert_position(s: Seq<gpu::BindGroupLayoutEntry>, key: u32) -> nat
    decreases s.len(),
{
    if s.len() == 0 {
        0
    } else if s[0].binding > key {
        0
    } else {
        1 + insert_position(s.drop_first(), key)
    }
}

/// The entries in ascending binding order, equal bindings in declaration
/// order (a stable sort by binding).
pub open spec fn sorted_by_binding(s: Seq<gpu::BindGroupLayoutEntry>) -> Seq<gpu::BindGroupLayoutEntry>
    decreases s.len(),
{
    if s.len() == 0 {
        Seq::empty()
    } else {
        let r = sorted_by_binding(s.drop_last());
        r.insert(insert_position(r, s.last().binding) as int, s.last())
    }
}

/// Whether the entries are in ascending binding order.
pub open spec fn binding_ascending(s: Seq<gpu::BindGroupLayoutEntry>) -> bool {
    forall|i: int, j: int| 0 <= i < j < s.len() ==> s[i].binding <= s[j].binding
}

/// The insert position is the length of the prefix of bindings not above
/// the key.
proof fn lemma_insert_position(s: Seq<gpu::BindGroupLayoutEntry>, key: u32, k: int)
    requires
        0 <= k <= s.len(),
        forall|m: int| 0 <= m < k ==> s[m].binding <= key,
        k < s.len() ==> s[k].binding > key,
    ensures
        insert_position(s, key) == k,
    decreases k,
{
    if k > 0 {
        let t = s.drop_first();
        assert forall|m: int| 0 <= m < k - 1 implies t[m].binding <= key by {
            assert(t[m] == s[m + 1]);
        }
        if k - 1 < t.len() {
            assert(t[k - 1] == s[k]);
        }
        lemma_insert_position(t, key, k - 1);
    }
}

/// Sorts layout entries by binding, keeping the declaration order of equal
/// bindings: the order of the resources of a pipeline resource signature.
pub fn sort_entries_by_binding(entries: &[gpu::BindGroupLayoutEntry]) -> (r: Vec<gpu::BindGroupLayoutEntry>)
    ensures
        r@ == sorted_by_binding(entries@),
        binding_ascending(r@),
        r@.to_multiset() == entries@.to_multiset(),
{
    let mut out: Vec<gpu::BindGroupLayoutEntry> = Vec::new();
    let mut i: usize = 0;
    proof {
        assert(entries@.take(0) =~= Seq::<gpu::BindGroupLayoutEntry>::empty());
        assert(out@ =~= Seq::<gpu::BindGroupLayoutEntry>::empty());
        broadcast use vstd::multiset::group_multiset_axioms;
        assert(Seq::<gpu::BindGroupLayoutEntry>::empty().to_multiset() =~= vstd::multiset::Multiset::empty()) by {
            broadcast use vstd::seq_lib::group_to_multiset_ensures;
        }
    }
    while i < entries.len()
        invariant
            i <= entries.len(),
            out@ == sorted_by_binding(entries@.take(i as int)),
            binding_ascending(out@),
            out@.to_multiset() == entries@.take(i as int).to_multiset(),
        decreases entries.len() - i,
    {
        let e = entries[i];
        let key = e.binding;
        let mut pos: usize = 0;
        while pos < out.len() && out[pos].binding <= key
            invariant
                pos <= out.len(),
                forall|m: int| 0 <= m < pos ==> out@[m].binding <= key,
            decreases out.len() - pos,
        {
            pos = pos + 1;
        }
        let ghost before = out@;
        proof {
            lemma_insert_position(before, key, pos as int);
            assert(entries@.take(i as int + 1).drop_last() =~= entries@.take(i as int));
            assert(entries@.take(i as int + 1).last() == e);
        }
        out.insert(pos, e);
        proof {
            to_multiset_insert(before, pos as int, e);
            assert(entries@.take(i as int + 1) =~= entries@.take(i as int).push(e));
            to_multiset_build(entries@.take(i as int), e);
            assert forall|a: int, b: int| 0 <= a < b < out@.len() implies out@[a].binding <= out@[b].binding by {
                if b < pos {
                } else if b == pos {
                } else if a < pos {
                    assert(out@[b] == before[b - 1]);
                    assert(before[b - 1].binding >= key) by {
                        if pos < before.len() {
                            assert(before[pos as int].binding > key);
                        }
                    }
                } else if a == pos {
                    assert(before[b - 1].binding >= before[pos as int].binding);
                } else {
                }
            }
        }
        i = i + 1;
    }
    proof {
        assert(entries@.take(entries.len() as int) =~= entries@);
    }
    out
}

/// Whether the engine has a resource type for the entry's binding type.
pub open spec fn supported(entry: gpu::BindGroupLayoutEntry) -> bool {
    mapping::resource_type_spec(entry.ty) is Some
}

/// What building the resources of `entries` (already in resource order)
/// with the names `name_of` gives: the first unsupported entry's error, or
/// one resource per entry.
pub open spec fn resource_list_spec(
    group: u32,
    entries: Seq<gpu::BindGroupLayoutEntry>,
    name_of: spec_fn(u32) -> Seq<char>,
    r: Result<Vec<PipelineResourceDesc>, UnsupportedBinding>,
) -> bool {
    match r {
        Ok(v) => {
            &&& forall|i: int| 0 <= i < entries.len() ==> supported(#[trigger] entries[i])
            &&& v@.len() == entries.len()
            &&& forall|i: int| 0 <= i < entries.len() ==> {
                &&& (#[trigger] v@[i]).name@ == name_of(entries[i].binding)
                &&& resource_desc_spec(entries[i], mapping::resource_type_spec(entries[i].ty).unwrap(), v@[i])
            }
        },
        Err(e) => exists|k: int| {
            &&& 0 <= k < entries.len()
            &&& !supported(#[trigger] entries[k])
            &&& forall|i: int| 0 <= i < k ==> supported(#[trigger] entries[i])
            &&& e == UnsupportedBinding { group, binding: entries[k].binding }
        },
    }
}

/// The resources of a bind group layout's entries in binding order, each
/// named `binding_N`: the signature built from the layout alone.
pub fn canonical_resource_descs(entries: &[gpu::BindGroupLayoutEntry]) -> (r: Result<Vec<PipelineResourceDesc>, UnsupportedBinding>)
    ensures
        resource_list_spec(0, sorted_by_binding(entries@), |b: u32| canonical_name_spec(b), r),
{
    let no_names: Vec<Vec<ShaderResourceName>> = Vec::new();
    proof {
        assert forall|b: u32| lookup_in_lists(lists_view(no_names@), 0, b) is None by {
            assert(lists_view(no_names@).len() == 0);
        }
    }
    resource_descs(0, entries, &no_names, false)
}

/// The resources of bind group `group` in binding order, named by the
/// shader modules' declarations (`binding_N` where no module names the
/// slot): the signature a pipeline is created with.
pub fn shader_named_resource_descs(group: u32, entries: &[gpu::BindGroupLayoutEntry], names: &[Vec<ShaderResourceName>]) -> (r: Result<Vec<PipelineResourceDesc>, UnsupportedBinding>)
    ensures
        resource_list_spec(group, sorted_by_binding(entries@), |b: u32| match lookup_in_lists(lists_view(names@), group, b) {
            Some(n) => n,
            None => canonical_name_spec(b),
        }, r),
{
    resource_descs(group, entries, names, true)
}

/// Builds the resources of `entries` in binding order; names come from
/// `names` when `shader_named`, else they are canonical.
fn resource_descs(group: u32, entries: &[gpu::BindGroupLayoutEntry], names: &[Vec<ShaderResourceName>], shader_named: bool) -> (r: Result<Vec<PipelineResourceDesc>, UnsupportedBinding>)
    requires
        !shader_named ==> group == 0 && forall|b: u32| lookup_in_lists(lists_view(names@), group, b) is None,
    ensures
        resource_list_spec(group, sorted_by_binding(entries@), |b: u32| match lookup_in_lists(lists_view(names@), group, b) {
            Some(n) => n,
            None => canonical_name_spec(b),
        }, r),
{
    let ghost name_of = |b: u32| match lookup_in_lists(lists_view(names@), group, b) {
        Some(n) => n,
        None => canonical_name_spec(b),
    };
    let sorted = sort_entries_by_binding(entries);
    let mut out: Vec<PipelineResourceDesc> = Vec::new();
    let mut i: usize = 0;
    while i < sorted.len()
        invariant
            i <= sorted.len(),
            sorted@ == sorted_by_binding(entries@),
            name_of == (|b: u32| match lookup_in_lists(lists_view(names@), group, b) {
                Some(n) => n,
                None => canonical_name_spec(b),
            }),
            !shader_named ==> group == 0 && forall|b: u32| lookup_in_lists(lists_view(names@), group, b) is None,
            out@.len() == i,
            forall|m: int| 0 <= m < i ==> supported(#[trigger] sorted@[m]),
            forall|m: int| 0 <= m < i ==> {
                &&& (#[trigger] out@[m]).name@ == name_of(sorted@[m].binding)
                &&& resource_desc_spec(sorted@[m], mapping::resource_type_spec(sorted@[m].ty).unwrap(), out@[m])
            },
        decreases sorted.len() - i,
    {
        let entry = sorted[i];
        let name = if shader_named {
            shader_name_for(names, group, entry.binding)
        } else {
            canonical_prs_name(entry.binding)
        };
        proof {
            if !shader_named {
                assert(lookup_in_lists(lists_view(names@), group, entry.binding) is None);
                assert(name@ == canonical_name_spec(entry.binding));
            } else {
                assert(name@ == match lookup_in_lists(lists_view(names@), group, entry.binding) {
                    Some(n) => n,
                    None => canonical_name_spec(entry.binding),
                });
            }
            assert(name@ == name_of(entry.binding));
        }
        match pipeline_resource_desc(group, &entry, name) {
            Ok(d) => {
                let ghost prev = out@;
                out.push(d);
                proof {
                    assert forall|m: int| 0 <= m < i + 1 implies {
                        &&& (#[trigger] out@[m]).name@ == name_of(sorted@[m].binding)
                        &&& resource_desc_spec(sorted@[m], mapping::resource_type_spec(sorted@[m].ty).unwrap(), out@[m])
                    } by {
                        if m < i {
                            assert(out@[m] == prev[m]);
                        }
                    }
                }
            },
            Err(e) => {
                proof {
                    assert(!supported(sorted@[i as int]));
                }
                return Err(e);
            },
        }
        i = i + 1;
    }
    Ok(out)
}

} // verus!
