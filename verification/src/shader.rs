//! Shader compilation: a shader source becomes a naga module, and a module
//! becomes the per-stage engine shader code (HLSL for D3D12, SPIR-V bytes
//! for Vulkan); compiled shaders are cached per (stage, entry point).

use crate::binding::{ModuleGlobal, ShaderModuleInfo};
use crate::gpu_types as gpu;
use crate::mapping;
use crate::resources::{spirv_word, ShaderSource};
use vstd::prelude::*;

verus! {

/// A naga shader module.
#[verifier::external_type_specification]
#[verifier::external_body]
pub struct ExNagaModule(naga::Module);

/// The validation information of a naga module.
#[verifier::external_type_specification]
#[verifier::external_body]
pub struct ExNagaModuleInfo(naga::valid::ModuleInfo);

/// The fragment entry point the HLSL back end links vertex outputs against.
#[verifier::external_type_specification]
#[verifier::external_body]
pub struct ExFragmentEntryPoint<'a>(naga::back::hlsl::FragmentEntryPoint<'a>);

/// What parsing WGSL source gives: `Some` of the module or of the parse
/// error's message when `naga::front::wgsl::parse_str` returns for the
/// source, `None` when it does not (the front end has panicking paths).
pub uninterp spec fn wgsl_parse_outcome(source: Seq<char>) -> Option<Result<naga::Module, Seq<char>>>;

/// What parsing SPIR-V words gives: `Some` of the module or of the error's
/// message when naga's SPIR-V front end returns for the words, `None` when
/// it does not (it panics on some malformed input, such as a switch on a
/// non-integer selector).
pub uninterp spec fn spirv_parse_outcome(words: Seq<u32>) -> Option<Result<naga::Module, Seq<char>>>;

/// Calls `naga::front::wgsl::parse_str`; an error becomes its message.
/// Only called on sources the front end returns for.
#[verifier::external_body]
fn parse_wgsl(source: &str) -> (r: Result<naga::Module, String>)
    requires
        wgsl_parse_outcome(source@) is Some,
    ensures
        match wgsl_parse_outcome(source@) {
            Some(Ok(m)) => r == Ok::<naga::Module, String>(m),
            Some(Err(e)) => r matches Err(m) && m@ == e,
            None => false,
        },
{
    naga::front::wgsl::parse_str(source).map_err(|e| e.to_string())
}

/// Calls naga's SPIR-V front end (`Frontend::parse` with the default
/// options) on the words; an error becomes its message. Only called on
/// words the front end returns for.
#[verifier::external_body]
fn parse_spirv(words: &[u32]) -> (r: Result<naga::Module, String>)
    requires
        spirv_parse_outcome(words@) is Some,
    ensures
        match spirv_parse_outcome(words@) {
            Some(Ok(m)) => r == Ok::<naga::Module, String>(m),
            Some(Err(e)) => r matches Err(m) && m@ == e,
            None => false,
        },
{
    naga::front::spv::Frontend::new(words.iter().copied(), &naga::front::spv::Options::default())
        .parse()
        .map_err(|e| e.to_string())
}

/// Calls `naga::Module::clone` (derived): a copy of the module.
#[verifier::external_body]
fn clone_module(module: &naga::Module) -> (r: naga::Module)
    ensures
        r == *module,
{
    module.clone()
}

/// Every validation flag (`ValidationFlags::from_bits_truncate` of it is
/// `ValidationFlags::all()`).
pub const VALIDATION_FLAGS_ALL: u8 = 0xff;

/// Every validator capability (`Capabilities::from_bits_truncate` of it is
/// `Capabilities::all()`).
pub const CAPABILITIES_ALL: u64 = 0xffff_ffff_ffff_ffff;

/// What validating a module with the validation flags and capabilities of
/// these bits gives: `Some` of the module information or of the error's
/// message when `naga::valid::Validator::validate` returns for the module,
/// `None` when it does not (the validator has panicking paths).
pub uninterp spec fn validation_outcome(module: naga::Module, flags: u8, capabilities: u64) -> Option<Result<naga::valid::ModuleInfo, Seq<char>>>;

/// Validates a module (`naga::valid::Validator::validate`) with the
/// validation flags and capabilities of the given bits; an error becomes
/// its message. Only called on modules the validator returns for.
#[verifier::external_body]
fn validate_module(module: &naga::Module, flags: u8, capabilities: u64) -> (r: Result<naga::valid::ModuleInfo, String>)
    requires
        validation_outcome(*module, flags, capabilities) is Some,
    ensures
        match validation_outcome(*module, flags, capabilities) {
            Some(Ok(info)) => r == Ok::<naga::valid::ModuleInfo, String>(info),
            Some(Err(e)) => r matches Err(m) && m@ == e,
            None => false,
        },
{
    naga::valid::Validator::new(
        naga::valid::ValidationFlags::from_bits_truncate(flags),
        naga::valid::Capabilities::from_bits_truncate(capabilities),
    )
    .validate(module)
    .map_err(|e| e.to_string())
}

/// A naga shader stage.
#[verifier::external_type_specification]
#[verifier::external_body]
pub struct ExNagaShaderStage(naga::ShaderStage);

/// A global variable of a naga module.
#[verifier::external_type_specification]
#[verifier::external_body]
pub struct ExNagaGlobalVariable(naga::GlobalVariable);

/// The naga stage of a shader stage: the variant of the same name.
pub uninterp spec fn naga_stage_of(stage: gpu::PipelineStage) -> naga::ShaderStage;

/// The naga stage of a shader stage (same name).
#[verifier::external_body]
fn naga_stage(stage: gpu::PipelineStage) -> (r: naga::ShaderStage)
    ensures
        r == naga_stage_of(stage),
{
    match stage {
        gpu::PipelineStage::Vertex => naga::ShaderStage::Vertex,
        gpu::PipelineStage::Task => naga::ShaderStage::Task,
        gpu::PipelineStage::Mesh => naga::ShaderStage::Mesh,
        gpu::PipelineStage::Fragment => naga::ShaderStage::Fragment,
        gpu::PipelineStage::Compute => naga::ShaderStage::Compute,
        gpu::PipelineStage::RayGeneration => naga::ShaderStage::RayGeneration,
        gpu::PipelineStage::Miss => naga::ShaderStage::Miss,
        gpu::PipelineStage::AnyHit => naga::ShaderStage::AnyHit,
        gpu::PipelineStage::ClosestHit => naga::ShaderStage::ClosestHit,
    }
}

/// The shader stage of a naga stage: the variant of the same name.
pub uninterp spec fn library_stage_of(stage: naga::ShaderStage) -> gpu::PipelineStage;

/// The stages of a module's entry points, in module order.
pub uninterp spec fn entry_stages_of(module: naga::Module) -> Seq<naga::ShaderStage>;

/// The global variables of a module, in module order.
pub uninterp spec fn globals_of(module: naga::Module) -> Seq<naga::GlobalVariable>;

/// The (group, binding) of a global's resource binding, if it has one.
pub uninterp spec fn global_binding_of(global: naga::GlobalVariable) -> Option<(u32, u32)>;

/// The name of a global, if it has one.
pub uninterp spec fn global_name_of(global: naga::GlobalVariable) -> Option<Seq<char>>;

/// Whether a global lives in the immediate address space.
pub uninterp spec fn global_immediate_of(global: naga::GlobalVariable) -> bool;

/// The shader stage of a naga stage (same name).
#[verifier::external_body]
fn library_stage(stage: naga::ShaderStage) -> (r: gpu::PipelineStage)
    ensures
        r == library_stage_of(stage),
{
    match stage {
        naga::ShaderStage::Vertex => gpu::PipelineStage::Vertex,
        naga::ShaderStage::Task => gpu::PipelineStage::Task,
        naga::ShaderStage::Mesh => gpu::PipelineStage::Mesh,
        naga::ShaderStage::Fragment => gpu::PipelineStage::Fragment,
        naga::ShaderStage::Compute => gpu::PipelineStage::Compute,
        naga::ShaderStage::RayGeneration => gpu::PipelineStage::RayGeneration,
        naga::ShaderStage::Miss => gpu::PipelineStage::Miss,
        naga::ShaderStage::AnyHit => gpu::PipelineStage::AnyHit,
        naga::ShaderStage::ClosestHit => gpu::PipelineStage::ClosestHit,
    }
}

/// The stages of a module's entry points, in module order (the `stage`
/// field of each of `Module::entry_points`).
#[verifier::external_body]
fn module_entry_stages(module: &naga::Module) -> (r: Vec<naga::ShaderStage>)
    ensures
        r@ == entry_stages_of(*module),
{
    module.entry_points.iter().map(|ep| ep.stage).collect()
}

/// The global variables of a module, in module order (clones of the items
/// of `Module::global_variables`).
#[verifier::external_body]
fn module_globals(module: &naga::Module) -> (r: Vec<naga::GlobalVariable>)
    ensures
        r@ == globals_of(*module),
{
    module.global_variables.iter().map(|(_, g)| g.clone()).collect()
}

/// The (group, binding) of a global's resource binding, if it has one.
#[verifier::external_body]
fn global_binding(global: &naga::GlobalVariable) -> (r: Option<(u32, u32)>)
    ensures
        r == global_binding_of(*global),
{
    global.binding.as_ref().map(|b| (b.group, b.binding))
}

/// The name of a global, if it has one.
#[verifier::external_body]
fn global_name(global: &naga::GlobalVariable) -> (r: Option<String>)
    ensures
        opt_chars(r) == global_name_of(*global),
{
    global.name.clone()
}

/// Whether a global lives in the immediate address space.
#[verifier::external_body]
fn global_is_immediate(global: &naga::GlobalVariable) -> (r: bool)
    ensures
        r == global_immediate_of(*global),
{
    matches!(global.space, naga::AddressSpace::Immediate)
}

/// The characters of an optional string.
pub open spec fn opt_chars(s: Option<String>) -> Option<Seq<char>> {
    match s {
        Some(s) => Some(s@),
        None => None,
    }
}

/// Whether `info` is what the binding model reads of `module`: the stage of
/// each entry point, and each global variable's resource binding, name and
/// whether it lives in the immediate address space, in module order.
pub open spec fn describes(info: ShaderModuleInfo, module: naga::Module) -> bool {
    &&& info.entry_stages@ == entry_stages_of(module).map_values(|st: naga::ShaderStage| library_stage_of(st))
    &&& info.globals@.len() == globals_of(module).len()
    &&& forall|j: int| 0 <= j < info.globals@.len() ==> {
        let g = #[trigger] info.globals@[j];
        let raw = globals_of(module)[j];
        &&& g.binding == global_binding_of(raw)
        &&& opt_chars(g.name) == global_name_of(raw)
        &&& g.immediate == global_immediate_of(raw)
    }
}

/// What the binding model reads of a naga module (see `describes`).
fn describe_module(module: &naga::Module) -> (info: ShaderModuleInfo)
    ensures
        describes(info, *module),
{
    let stages = module_entry_stages(module);
    let mut entry_stages: Vec<gpu::PipelineStage> = Vec::new();
    let mut i: usize = 0;
    while i < stages.len()
        invariant
            i <= stages@.len(),
            stages@ == entry_stages_of(*module),
            entry_stages@ == stages@.take(i as int).map_values(|st: naga::ShaderStage| library_stage_of(st)),
        decreases stages.len() - i,
    {
        entry_stages.push(library_stage(stages[i]));
        proof {
            assert(stages@.take(i as int + 1) =~= stages@.take(i as int).push(stages@[i as int]));
            assert(entry_stages@ =~= stages@.take(i as int + 1).map_values(|st: naga::ShaderStage| library_stage_of(st)));
        }
        i = i + 1;
    }
    proof {
        assert(stages@.take(stages@.len() as int) =~= stages@);
    }
    let raw = module_globals(module);
    let mut globals: Vec<ModuleGlobal> = Vec::new();
    let mut j: usize = 0;
    while j < raw.len()
        invariant
            j <= raw@.len(),
            raw@ == globals_of(*module),
            globals@.len() == j,
            forall|k: int| 0 <= k < j ==> {
                let g = #[trigger] globals@[k];
                &&& g.binding == global_binding_of(raw@[k])
                &&& opt_chars(g.name) == global_name_of(raw@[k])
                &&& g.immediate == global_immediate_of(raw@[k])
            },
        decreases raw.len() - j,
    {
        let g = &raw[j];
        globals.push(ModuleGlobal { binding: global_binding(g), name: global_name(g), immediate: global_is_immediate(g) });
        j = j + 1;
    }
    ShaderModuleInfo { entry_stages, globals }
}

/// Whether the first entry point of this name in a module is a fragment
/// entry point.
pub uninterp spec fn has_fragment_entry(module: naga::Module, entry_point: Seq<char>) -> bool;

/// Calls `naga::back::hlsl::FragmentEntryPoint::new`: the fragment entry
/// point of that name, `None` when the module has no entry point of that
/// name or the first one of that name is not a fragment entry point.
#[verifier::external_body]
fn fragment_entry_point<'a>(module: &'a naga::Module, entry_point: &'a str) -> (r: Option<naga::back::hlsl::FragmentEntryPoint<'a>>)
    ensures
        r is Some == has_fragment_entry(*module, entry_point@),
{
    naga::back::hlsl::FragmentEntryPoint::new(module, entry_point)
}

/// An HLSL shader model of naga's HLSL back end.
#[derive(Clone, Copy, Debug, PartialEq, Eq, Structural)]
pub enum HlslShaderModel {
    V5_0,
    V5_1,
    V6_0,
    V6_1,
    V6_2,
    V6_3,
    V6_4,
    V6_5,
    V6_6,
    V6_7,
    V6_8,
    V6_9,
}

/// A shader model of naga's HLSL back end.
#[verifier::external_type_specification]
#[verifier::external_body]
pub struct ExNagaHlslShaderModel(naga::back::hlsl::ShaderModel);

/// naga's shader model of an HLSL shader model: the variant of the same
/// name.
pub uninterp spec fn naga_shader_model_of(model: HlslShaderModel) -> naga::back::hlsl::ShaderModel;

/// naga's shader model of an HLSL shader model (same name).
#[verifier::external_body]
fn naga_shader_model(model: HlslShaderModel) -> (r: naga::back::hlsl::ShaderModel)
    ensures
        r == naga_shader_model_of(model),
{
    match model {
        HlslShaderModel::V5_0 => naga::back::hlsl::ShaderModel::V5_0,
        HlslShaderModel::V5_1 => naga::back::hlsl::ShaderModel::V5_1,
        HlslShaderModel::V6_0 => naga::back::hlsl::ShaderModel::V6_0,
        HlslShaderModel::V6_1 => naga::back::hlsl::ShaderModel::V6_1,
        HlslShaderModel::V6_2 => naga::back::hlsl::ShaderModel::V6_2,
        HlslShaderModel::V6_3 => naga::back::hlsl::ShaderModel::V6_3,
        HlslShaderModel::V6_4 => naga::back::hlsl::ShaderModel::V6_4,
        HlslShaderModel::V6_5 => naga::back::hlsl::ShaderModel::V6_5,
        HlslShaderModel::V6_6 => naga::back::hlsl::ShaderModel::V6_6,
        HlslShaderModel::V6_7 => naga::back::hlsl::ShaderModel::V6_7,
        HlslShaderModel::V6_8 => naga::back::hlsl::ShaderModel::V6_8,
        HlslShaderModel::V6_9 => naga::back::hlsl::ShaderModel::V6_9,
    }
}

/// What naga's HLSL back end (`Writer::write`, default options but for the
/// shader model and the immediates register) gives for one entry point of a
/// module with its information, linked against the fragment entry point of
/// that name when `fragment_linked`: `Some` of the HLSL source or of the
/// error's message when the writer returns, `None` when it does not (it
/// panics on some modules, such as ones using the task-payload address
/// space).
pub uninterp spec fn hlsl_outcome(
    module: naga::Module,
    info: naga::valid::ModuleInfo,
    stage: naga::ShaderStage,
    entry_point: Seq<char>,
    immediates_target: Option<(u8, u32)>,
    shader_model: naga::back::hlsl::ShaderModel,
    fragment_linked: bool,
) -> Option<Result<Seq<char>, Seq<char>>>;

/// Writes the HLSL of one entry point with naga's HLSL back end
/// (`Writer::write`) for `shader_model`; `immediates_target` is the
/// (space, register) of the immediate constants, when the module has them.
/// An error becomes its message. Only called where the writer returns, and
/// with a fragment entry point only for a fragment stage: the writer reads
/// the fragment entry point only to shape a vertex stage's outputs, so for
/// the stage written its presence is all that matters.
#[verifier::external_body]
fn write_hlsl(
    module: &naga::Module,
    info: &naga::valid::ModuleInfo,
    stage: naga::ShaderStage,
    entry_point: &str,
    immediates_target: Option<(u8, u32)>,
    shader_model: naga::back::hlsl::ShaderModel,
    fragment: Option<&naga::back::hlsl::FragmentEntryPoint>,
) -> (r: Result<String, String>)
    requires
        hlsl_outcome(*module, *info, stage, entry_point@, immediates_target, shader_model, fragment is Some) is Some,
        fragment is Some ==> stage == naga_stage_of(gpu::PipelineStage::Fragment),
    ensures
        match hlsl_outcome(*module, *info, stage, entry_point@, immediates_target, shader_model, fragment is Some) {
            Some(Ok(source)) => r matches Ok(h) && h@ == source,
            Some(Err(e)) => r matches Err(m) && m@ == e,
            None => false,
        },
{
    let mut options = naga::back::hlsl::Options::default();
    options.shader_model = shader_model;
    options.immediates_target = immediates_target.map(|(space, register)| naga::back::hlsl::BindTarget { space, register, ..Default::default() });
    let pipeline_options = naga::back::hlsl::PipelineOptions { entry_point: Some((stage, entry_point.to_string())) };
    let mut output = String::new();
    naga::back::hlsl::Writer::new(&mut output, &options, &pipeline_options)
        .write(module, info, fragment)
        .map_err(|e| e.to_string())?;
    Ok(output)
}

/// What naga's SPIR-V back end (`write_vec`, default options) gives for one
/// entry point of a module with its information: `Some` of the words or of
/// the error's message when it returns, `None` when it does not (it has
/// panicking paths).
pub uninterp spec fn spirv_outcome(module: naga::Module, info: naga::valid::ModuleInfo, stage: naga::ShaderStage, entry_point: Seq<char>) -> Option<Result<Seq<u32>, Seq<char>>>;

/// Writes the SPIR-V words of one entry point with naga's SPIR-V back end
/// (`naga::back::spv::write_vec`, default options). An error becomes its
/// message. Only called where the back end returns.
#[verifier::external_body]
fn write_spirv(module: &naga::Module, info: &naga::valid::ModuleInfo, stage: naga::ShaderStage, entry_point: &str) -> (r: Result<Vec<u32>, String>)
    requires
        spirv_outcome(*module, *info, stage, entry_point@) is Some,
    ensures
        match spirv_outcome(*module, *info, stage, entry_point@) {
            Some(Ok(words)) => r matches Ok(w) && w@ == words,
            Some(Err(e)) => r matches Err(m) && m@ == e,
            None => false,
        },
{
    let pipeline_options = naga::back::spv::PipelineOptions { shader_stage: stage, entry_point: entry_point.to_string() };
    naga::back::spv::write_vec(module, info, &naga::back::spv::Options::default(), Some(&pipeline_options))
        .map_err(|e| e.to_string())
}

/// Whether `s` starts with `p`.
pub open spec fn has_prefix(s: Seq<char>, p: Seq<char>) -> bool {
    p.len() <= s.len() && s.subrange(0, p.len() as int) == p
}

/// `prefix` followed by `message`.
fn prefixed(prefix: &str, message: String) -> (s: String)
    ensures
        s@ == prefix@ + message@,
{
    let mut s = String::from_str(prefix);
    s.append(message.as_str());
    s
}

/// Whether naga's front end returns for a source (a module needs none).
pub open spec fn source_front_end_returns(source: ShaderSource) -> bool {
    match source {
        ShaderSource::Naga(_) => true,
        ShaderSource::Wgsl(s) => wgsl_parse_outcome(s@) is Some,
        ShaderSource::SpirV(words) => spirv_parse_outcome(words@) is Some,
    }
}

/// Compiles a shader source into a naga module: a module is taken as is,
/// WGSL and SPIR-V are parsed; a parse error's message is prefixed with
/// what failed to parse.
pub fn compile_shader_source(source: &ShaderSource) -> (r: Result<naga::Module, String>)
    requires
        source_front_end_returns(*source),
    ensures
        match source {
            ShaderSource::Naga(m) => r == Ok::<naga::Module, String>(*m),
            ShaderSource::Wgsl(s) => match wgsl_parse_outcome(s@) {
                Some(Ok(m)) => r == Ok::<naga::Module, String>(m),
                Some(Err(e)) => r matches Err(m) && m@ == "failed to parse WGSL shader: "@ + e,
                None => false,
            },
            ShaderSource::SpirV(words) => match spirv_parse_outcome(words@) {
                Some(Ok(m)) => r == Ok::<naga::Module, String>(m),
                Some(Err(e)) => r matches Err(m) && m@ == "failed to parse SPIR-V shader: "@ + e,
                None => false,
            },
        },
{
    match source {
        ShaderSource::Naga(module) => Ok(clone_module(module)),
        ShaderSource::Wgsl(s) => match parse_wgsl(s.as_str()) {
            Ok(m) => Ok(m),
            Err(e) => Err(prefixed("failed to parse WGSL shader: ", e)),
        },
        ShaderSource::SpirV(words) => match parse_spirv(words.as_slice()) {
            Ok(m) => Ok(m),
            Err(e) => Err(prefixed("failed to parse SPIR-V shader: ", e)),
        },
    }
}

/// Whether a module declares a global in the immediate address space.
pub open spec fn has_immediate_global(globals: Seq<ModuleGlobal>) -> bool {
    exists|i: int| 0 <= i < globals.len() && (#[trigger] globals[i]).immediate
}

/// The HLSL register (space, register) of a module's immediate constants:
/// space 0, register 0 when the module declares an immediate global (the
/// engine remaps registers, so the value only needs to be consistent).
pub fn immediate_target(module: &ShaderModuleInfo) -> (r: Option<(u8, u32)>)
    ensures
        r == if has_immediate_global(module.globals@) { Some((0u8, 0u32)) } else { None::<(u8, u32)> },
{
    let mut i: usize = 0;
    while i < module.globals.len()
        invariant
            i <= module.globals@.len(),
            forall|j: int| 0 <= j < i ==> !(#[trigger] module.globals@[j]).immediate,
        decreases module.globals.len() - i,
    {
        if module.globals[i].immediate {
            return Some((0, 0));
        }
        i = i + 1;
    }
    None
}

/// The four little-endian bytes of a word.
pub open spec fn le_bytes(w: u32) -> Seq<u8> {
    seq![(w & 0xff) as u8, ((w >> 8u32) & 0xff) as u8, ((w >> 16u32) & 0xff) as u8, ((w >> 24u32) & 0xff) as u8]
}

/// SPIR-V words as bytes: each word's four little-endian bytes, in order.
pub fn words_to_le_bytes(words: &[u32]) -> (bytes: Vec<u8>)
    requires
        words@.len() * 4 <= usize::MAX,
    ensures
        bytes@.len() == 4 * words@.len(),
        forall|i: int, k: int| 0 <= i < words@.len() && 0 <= k < 4 ==> bytes@[4 * i + k] == #[trigger] le_bytes(words@[i])[k],
{
    let mut bytes: Vec<u8> = Vec::new();
    let mut i: usize = 0;
    while i < words.len()
        invariant
            i <= words@.len(),
            words@.len() * 4 <= usize::MAX,
            bytes@.len() == 4 * i,
            forall|j: int, k: int| 0 <= j < i && 0 <= k < 4 ==> bytes@[4 * j + k] == #[trigger] le_bytes(words@[j])[k],
        decreases words.len() - i,
    {
        let w = words[i];
        let ghost before = bytes@;
        bytes.push((w & 0xff) as u8);
        bytes.push(((w >> 8u32) & 0xff) as u8);
        bytes.push(((w >> 16u32) & 0xff) as u8);
        bytes.push(((w >> 24u32) & 0xff) as u8);
        proof {
            assert forall|j: int, k: int| 0 <= j < i + 1 && 0 <= k < 4 implies bytes@[4 * j + k] == #[trigger] le_bytes(words@[j])[k] by {
                if j < i {
                    assert(bytes@[4 * j + k] == before[4 * j + k]);
                } else {
                    assert(4 * j + k == 4 * i + k);
                }
            }
        }
        i = i + 1;
    }
    bytes
}

/// A word is the little-endian sum of its four bytes.
proof fn lemma_word_from_le_bytes(w: u32)
    ensures
        w as int == (w & 0xff) as u8 as int + 256 * (((w >> 8u32) & 0xff) as u8 as int)
            + 65536 * (((w >> 16u32) & 0xff) as u8 as int) + 16777216 * (((w >> 24u32) & 0xff) as u8 as int),
{
    assert(w == (w & 0xff) + 256 * ((w >> 8u32) & 0xff) + 65536 * ((w >> 16u32) & 0xff) + 16777216 * ((w >> 24u32) & 0xff)) by (bit_vector);
    assert((w & 0xff) as u8 as int == (w & 0xff) as int) by (bit_vector);
    assert(((w >> 8u32) & 0xff) as u8 as int == ((w >> 8u32) & 0xff) as int) by (bit_vector);
    assert(((w >> 16u32) & 0xff) as u8 as int == ((w >> 16u32) & 0xff) as int) by (bit_vector);
    assert(((w >> 24u32) & 0xff) as u8 as int == ((w >> 24u32) & 0xff) as int) by (bit_vector);
}

/// SPIR-V words written as little-endian bytes (as `words_to_le_bytes`
/// writes them) and read back as a SPIR-V source (as `make_spirv` reads
/// bytes) are the same words.
pub proof fn lemma_spirv_bytes_round_trip(words: Seq<u32>, bytes: Seq<u8>)
    requires
        bytes.len() == 4 * words.len(),
        forall|i: int, k: int| 0 <= i < words.len() && 0 <= k < 4 ==> bytes[4 * i + k] == #[trigger] le_bytes(words[i])[k],
    ensures
        (bytes.len() + 3) / 4 == words.len(),
        forall|i: int| 0 <= i < words.len() ==> #[trigger] spirv_word(bytes, i) == words[i] as int,
{
    assert forall|i: int| 0 <= i < words.len() implies #[trigger] spirv_word(bytes, i) == words[i] as int by {
        let w = words[i];
        lemma_word_from_le_bytes(w);
        assert(bytes[4 * i] == le_bytes(w)[0]);
        assert(bytes[4 * i + 1] == le_bytes(w)[1]);
        assert(bytes[4 * i + 2] == le_bytes(w)[2]);
        assert(bytes[4 * i + 3] == le_bytes(w)[3]);
    }
}

/// A word made of four little-endian bytes gives those bytes back.
proof fn lemma_le_bytes_of_word(w: u32, b0: u8, b1: u8, b2: u8, b3: u8)
    requires
        w as int == b0 + 256 * b1 + 65536 * b2 + 16777216 * b3,
    ensures
        le_bytes(w) == seq![b0, b1, b2, b3],
{
    assert(w == b0 as u32 + 256 * (b1 as u32) + 65536 * (b2 as u32) + 16777216 * (b3 as u32));
    assert((w & 0xff) as u8 == b0 && ((w >> 8u32) & 0xff) as u8 == b1 && ((w >> 16u32) & 0xff) as u8 == b2
        && ((w >> 24u32) & 0xff) as u8 == b3) by (bit_vector)
        requires
            w == b0 as u32 + 256 * (b1 as u32) + 65536 * (b2 as u32) + 16777216 * (b3 as u32),
    ;
    assert(le_bytes(w) =~= seq![b0, b1, b2, b3]);
}

/// Bytes of a length that is a multiple of four, read as SPIR-V words (as
/// `make_spirv` reads them) and written back as little-endian bytes (as
/// `words_to_le_bytes` writes them), are the same bytes.
pub proof fn lemma_spirv_words_round_trip(bytes: Seq<u8>, words: Seq<u32>)
    requires
        bytes.len() % 4 == 0,
        words.len() == (bytes.len() + 3) / 4,
        forall|i: int| 0 <= i < words.len() ==> #[trigger] words[i] as int == spirv_word(bytes, i),
    ensures
        words.len() * 4 == bytes.len(),
        forall|i: int, k: int| 0 <= i < words.len() && 0 <= k < 4 ==> #[trigger] le_bytes(words[i])[k] == bytes[4 * i + k],
{
    assert forall|i: int, k: int| 0 <= i < words.len() && 0 <= k < 4 implies #[trigger] le_bytes(words[i])[k] == bytes[4 * i + k] by {
        assert(words[i] as int == spirv_word(bytes, i));
        assert(4 * i + 3 < bytes.len());
        lemma_le_bytes_of_word(words[i], bytes[4 * i], bytes[4 * i + 1], bytes[4 * i + 2], bytes[4 * i + 3]);
    }
}

/// The engine backend shaders are compiled for.
#[derive(Clone, Copy, Debug, PartialEq, Eq, Structural)]
pub enum DiligentBackend {
    D3D12,
    Vulkan,
    Other,
}

/// The code of a compiled shader: HLSL source (D3D12) or SPIR-V bytes
/// (Vulkan).
#[derive(Clone, Debug)]
pub enum ShaderCode {
    Hlsl(String),
    SpirV(Vec<u8>),
}

/// A shader ready for the engine: its name, engine shader type and code.
#[derive(Clone, Debug)]
pub struct CompiledShader {
    pub name: String,
    pub shader_type: u32,
    pub code: ShaderCode,
}

/// The engine name of a shader: `bevy_` and its entry point.
pub fn shader_name(entry_point: &str) -> (name: String)
    ensures
        name@ == "bevy_"@ + entry_point@,
{
    let mut name = String::from_str("bevy_");
    name.append(entry_point);
    name
}

/// The message when no engine backend is configured.
pub open spec fn no_backend_message() -> Seq<char> {
    "no diligent backend configured"@
}

/// The HLSL shader model shaders are compiled for.
pub open spec fn compile_shader_model() -> HlslShaderModel {
    HlslShaderModel::V6_0
}

/// The register of a module's immediate constants: space 0, register 0
/// when one of its globals lives in the immediate address space.
pub open spec fn module_immediate_target(module: naga::Module) -> Option<(u8, u32)> {
    if exists|j: int| 0 <= j < globals_of(module).len() && global_immediate_of(#[trigger] globals_of(module)[j]) {
        Some((0u8, 0u32))
    } else {
        None
    }
}

/// What the HLSL back end gives for an entry point of a validated module
/// (with `info`), as `compile_shader` asks for it.
pub open spec fn compile_hlsl_outcome(module: naga::Module, info: naga::valid::ModuleInfo, stage: gpu::PipelineStage, entry_point: Seq<char>) -> Option<Result<Seq<char>, Seq<char>>> {
    hlsl_outcome(
        module,
        info,
        naga_stage_of(stage),
        entry_point,
        module_immediate_target(module),
        naga_shader_model_of(compile_shader_model()),
        stage == gpu::PipelineStage::Fragment && has_fragment_entry(module, entry_point),
    )
}

/// Whether naga returns on every step `compile_shader` takes for this entry
/// point on this backend.
pub open spec fn compile_steps_return(module: naga::Module, backend: DiligentBackend, stage: gpu::PipelineStage, entry_point: Seq<char>) -> bool {
    match validation_outcome(module, VALIDATION_FLAGS_ALL, CAPABILITIES_ALL) {
        None => false,
        Some(Err(_)) => true,
        Some(Ok(info)) => match backend {
            DiligentBackend::D3D12 => compile_hlsl_outcome(module, info, stage, entry_point) is Some,
            DiligentBackend::Vulkan => spirv_outcome(module, info, naga_stage_of(stage), entry_point) is Some,
            DiligentBackend::Other => true,
        },
    }
}

/// `bytes` are the little-endian bytes of `words`, in order.
pub open spec fn le_bytes_of(bytes: Seq<u8>, words: Seq<u32>) -> bool {
    &&& bytes.len() == 4 * words.len()
    &&& forall|i: int, k: int| 0 <= i < words.len() && 0 <= k < 4 ==> bytes[4 * i + k] == #[trigger] le_bytes(words[i])[k]
}

/// Whether `s` is the compiled shader of the entry point with `code`.
pub open spec fn compiled_as(s: CompiledShader, stage: gpu::PipelineStage, entry_point: Seq<char>) -> bool {
    &&& s.name@ == "bevy_"@ + entry_point
    &&& s.shader_type == mapping::shader_type_spec(stage)
}

/// Compiles one entry point of a module for the engine: the module is
/// validated with every flag and capability, then written as HLSL (D3D12,
/// shader model 6.0, with the immediate-constants register when the module
/// has immediates and the fragment entry point for a fragment stage) or as
/// SPIR-V bytes (Vulkan). Each failure's message is the step that failed
/// and naga's message; a device with another backend gets no shader.
pub fn compile_shader(module: &naga::Module, backend: DiligentBackend, stage: gpu::PipelineStage, entry_point: &str) -> (r: Result<CompiledShader, String>)
    requires
        compile_steps_return(*module, backend, stage, entry_point@),
    ensures
        match validation_outcome(*module, VALIDATION_FLAGS_ALL, CAPABILITIES_ALL) {
            None => false,
            Some(Err(e)) => r matches Err(m) && m@ == "naga validation failed: "@ + e,
            Some(Ok(info)) => match backend {
                DiligentBackend::Other => r matches Err(m) && m@ == no_backend_message(),
                DiligentBackend::D3D12 => match compile_hlsl_outcome(*module, info, stage, entry_point@) {
                    None => false,
                    Some(Ok(source)) => r matches Ok(s) && compiled_as(s, stage, entry_point@)
                        && (s.code matches ShaderCode::Hlsl(h) && h@ == source),
                    Some(Err(e)) => r matches Err(m) && m@ == "naga HLSL generation failed: "@ + e,
                },
                DiligentBackend::Vulkan => match spirv_outcome(*module, info, naga_stage_of(stage), entry_point@) {
                    None => false,
                    Some(Ok(words)) => if words.len() * 4 <= usize::MAX {
                        r matches Ok(s) && compiled_as(s, stage, entry_point@)
                            && (s.code matches ShaderCode::SpirV(b) && le_bytes_of(b@, words))
                    } else {
                        r matches Err(m) && m@ == "naga SPIR-V generation failed: module too large"@
                    },
                    Some(Err(e)) => r matches Err(m) && m@ == "naga SPIR-V generation failed: "@ + e,
                },
            },
        },
{
    let info = match validate_module(module, VALIDATION_FLAGS_ALL, CAPABILITIES_ALL) {
        Ok(info) => info,
        Err(e) => return Err(prefixed("naga validation failed: ", e)),
    };
    let shader_type = mapping::shader_type_from_stage(stage);
    let name = shader_name(entry_point);
    match backend {
        DiligentBackend::D3D12 => {
            let description = describe_module(module);
            let target = immediate_target(&description);
            proof {
                if has_immediate_global(description.globals@) {
                    let i = choose|i: int| 0 <= i < description.globals@.len() && (#[trigger] description.globals@[i]).immediate;
                    assert(global_immediate_of(globals_of(*module)[i]));
                } else {
                    assert forall|j: int| 0 <= j < globals_of(*module).len() implies !global_immediate_of(#[trigger] globals_of(*module)[j]) by {
                        assert(description.globals@[j].immediate == global_immediate_of(globals_of(*module)[j]));
                    }
                }
            }
            let fragment = match stage {
                gpu::PipelineStage::Fragment => fragment_entry_point(module, entry_point),
                _ => None,
            };
            let model = naga_shader_model(HlslShaderModel::V6_0);
            match write_hlsl(module, &info, naga_stage(stage), entry_point, target, model, fragment.as_ref()) {
                Ok(source) => Ok(CompiledShader { name, shader_type, code: ShaderCode::Hlsl(source) }),
                Err(e) => Err(prefixed("naga HLSL generation failed: ", e)),
            }
        },
        DiligentBackend::Vulkan => match write_spirv(module, &info, naga_stage(stage), entry_point) {
            Ok(words) => {
                if words.len() > usize::MAX / 4 {
                    // A vector of words never holds a quarter of the address
                    // space; report it rather than overflow.
                    let m = prefixed("naga SPIR-V generation failed: ", String::from_str("module too large"));
                    proof {
                        reveal_strlit("naga SPIR-V generation failed: ");
                        reveal_strlit("module too large");
                        reveal_strlit("naga SPIR-V generation failed: module too large");
                        assert(m@ =~= "naga SPIR-V generation failed: module too large"@);
                    }
                    return Err(m);
                }
                let bytes = words_to_le_bytes(words.as_slice());
                Ok(CompiledShader { name, shader_type, code: ShaderCode::SpirV(bytes) })
            },
            Err(e) => Err(prefixed("naga SPIR-V generation failed: ", e)),
        },
        DiligentBackend::Other => Err(String::from_str("no diligent backend configured")),
    }
}

/// The binding-model description of each present module, in order.
pub fn shader_module_infos(modules: &[Option<&naga::Module>]) -> (r: Vec<Option<ShaderModuleInfo>>)
    ensures
        r@.len() == modules@.len(),
        forall|i: int| 0 <= i < modules@.len() ==> (#[trigger] r@[i]).is_some() == modules@[i].is_some(),
        forall|i: int| 0 <= i < modules@.len() ==> ((#[trigger] r@[i]) matches Some(info) ==> describes(info, *modules@[i].unwrap())),
{
    let mut out: Vec<Option<ShaderModuleInfo>> = Vec::new();
    let mut i: usize = 0;
    while i < modules.len()
        invariant
            i <= modules@.len(),
            out@.len() == i,
            forall|j: int| 0 <= j < i ==> (#[trigger] out@[j]).is_some() == modules@[j].is_some(),
            forall|j: int| 0 <= j < i ==> ((#[trigger] out@[j]) matches Some(info) ==> describes(info, *modules@[j].unwrap())),
        decreases modules.len() - i,
    {
        match modules[i] {
            Some(m) => out.push(Some(describe_module(m))),
            None => out.push(None),
        }
        i = i + 1;
    }
    out
}

/// The engine shaders compiled from one module, by (stage, entry point):
/// two entry points of the same stage compile distinct shaders.
pub struct StageShaderCache<S> {
    pub entries: Vec<((gpu::PipelineStage, String), S)>,
}

impl<S> StageShaderCache<S> {
    /// Whether entry `i` is the shader of `stage` and `entry_point`.
    pub open spec fn holds(self, i: int, stage: gpu::PipelineStage, entry_point: Seq<char>) -> bool {
        self.entries@[i].0.0 == stage && self.entries@[i].0.1@ == entry_point
    }

    /// An empty cache.
    pub fn new() -> (c: Self)
        ensures
            c.entries@.len() == 0,
    {
        StageShaderCache { entries: Vec::new() }
    }

    /// The index of the cached shader of `stage` and `entry_point`.
    pub fn find(&self, stage: gpu::PipelineStage, entry_point: &str) -> (r: Option<usize>)
        ensures
            match r {
                Some(i) => i < self.entries@.len() && self.holds(i as int, stage, entry_point@)
                    && forall|j: int| 0 <= j < i ==> !self.holds(j, stage, entry_point@),
                None => forall|j: int| 0 <= j < self.entries@.len() ==> !self.holds(j, stage, entry_point@),
            },
    {
        let key = String::from_str(entry_point);
        let mut i: usize = 0;
        while i < self.entries.len()
            invariant
                i <= self.entries@.len(),
                key@ == entry_point@,
                forall|j: int| 0 <= j < i ==> !self.holds(j, stage, entry_point@),
            decreases self.entries.len() - i,
        {
            let e = &self.entries[i];
            if e.0.0 == stage && e.0.1 == key {
                return Some(i);
            }
            i = i + 1;
        }
        None
    }

    /// Caches a freshly compiled shader of `stage` and `entry_point`, unless
    /// one was cached meanwhile; returns the index of the cached shader
    /// (the earlier one when there is one).
    pub fn insert(&mut self, stage: gpu::PipelineStage, entry_point: &str, shader: S) -> (index: usize)
        ensures
            index < final(self).entries@.len(),
            final(self).holds(index as int, stage, entry_point@),
            forall|j: int| 0 <= j < index ==> !final(self).holds(j, stage, entry_point@),
            (exists|i: int| 0 <= i < old(self).entries@.len() && old(self).holds(i, stage, entry_point@))
                ==> final(self).entries@ == old(self).entries@,
            !(exists|i: int| 0 <= i < old(self).entries@.len() && old(self).holds(i, stage, entry_point@)) ==> {
                &&& index == old(self).entries@.len()
                &&& final(self).entries@.drop_last() == old(self).entries@
                &&& final(self).entries@.last().1 == shader
            },
    {
        match self.find(stage, entry_point) {
            Some(i) => i,
            None => {
                let ghost before = self.entries@;
                let ghost pre = *self;
                self.entries.push(((stage, String::from_str(entry_point)), shader));
                proof {
                    assert forall|j: int| 0 <= j < before.len() implies !self.holds(j, stage, entry_point@) by {
                        assert(!pre.holds(j, stage, entry_point@));
                        assert(self.entries@[j] == before[j]);
                    }
                    assert(self.entries@.drop_last() =~= before);
                }
                self.entries.len() - 1
            },
        }
    }
}

/// The error of the last shader module compiled, kept until it is taken:
/// each compilation replaces it (a success clears it).
pub struct ShaderErrorLatch {
    pub error: Option<String>,
}

impl ShaderErrorLatch {
    /// A latch holding no error.
    pub fn new() -> (l: ShaderErrorLatch)
        ensures
            l.error is None,
    {
        ShaderErrorLatch { error: None }
    }

    /// Records the outcome of compiling a module: its error is latched (a
    /// success clears the latch), and the module, if any, is returned.
    pub fn record(&mut self, outcome: Result<naga::Module, String>) -> (module: Option<naga::Module>)
        ensures
            match outcome {
                Ok(m) => module == Some(m) && final(self).error is None,
                Err(e) => module is None && final(self).error == Some(e),
            },
    {
        match outcome {
            Ok(m) => {
                self.error = None;
                Some(m)
            },
            Err(e) => {
                self.error = Some(e);
                None
            },
        }
    }

    /// Takes the latched error, leaving none.
    pub fn take(&mut self) -> (error: Option<String>)
        ensures
            error == old(self).error,
            final(self).error is None,
    {
        self.error.take()
    }
}

} // verus!
