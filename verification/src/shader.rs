//! Shader pipeline compilation support: the error taxonomy, the mapping from
//! pipeline-stage flags to the compiler backend's stage enumeration, and
//! validation of a compiled binary as a word-aligned instruction stream.

use vstd::prelude::*;

verus! {

/// Pipeline-stage flag bits, as the driver boundary encodes them.
pub const STAGE_VERTEX: u32 = 0x1;

pub const STAGE_TESSELLATION_CONTROL: u32 = 0x2;

pub const STAGE_TESSELLATION_EVALUATION: u32 = 0x4;

pub const STAGE_GEOMETRY: u32 = 0x8;

pub const STAGE_FRAGMENT: u32 = 0x10;

pub const STAGE_COMPUTE: u32 = 0x20;

pub const STAGE_RAYGEN: u32 = 0x100;

pub const STAGE_ANY_HIT: u32 = 0x200;

pub const STAGE_CLOSEST_HIT: u32 = 0x400;

pub const STAGE_MISS: u32 = 0x800;

pub const STAGE_INTERSECTION: u32 = 0x1000;

/// First word of every valid binary shader program.
pub const SPIRV_MAGIC: u32 = 0x07230203;

/// Why a device query, compilation or module load failed. Each variant
/// carries the context a caller needs to log or display; none is retried.
#[derive(Clone, PartialEq, Eq, Debug)]
pub enum ShaderError {
    /// A driver query failed; carries the driver's diagnostic text.
    DriverQueryFailure(String),
    /// The requested stage flags have no compiler-target mapping; carries the
    /// raw flags. Compilation does not start.
    UnsupportedStage(u32),
    /// A source import directive could not be resolved; carries the resolved
    /// path that was missing.
    ImportResolutionFailure(String),
    /// The backend rejected the source; carries its diagnostic verbatim.
    CompilationFailure(String),
    /// The binary failed validation at the device boundary; carries the
    /// reason.
    ModuleLoadFailure(String),
}

/// The compiler backend's stage enumeration, restricted to the stages this
/// layer maps.
#[derive(Clone, Copy, PartialEq, Eq, Structural, Debug)]
pub enum CompilerStage {
    Vertex,
    Fragment,
    Compute,
    TessControl,
    TessEvaluation,
    Geometry,
    RayGeneration,
    AnyHit,
    ClosestHit,
    Miss,
    Intersection,
}

/// What `get_shaderc_stage` computes: the backend stage for exactly one
/// recognized stage-flag value, `None` for every other value.
pub open spec fn spec_shaderc_stage(stage_flags: u32) -> Option<CompilerStage> {
    if stage_flags == STAGE_VERTEX {
        Some(CompilerStage::Vertex)
    } else if stage_flags == STAGE_FRAGMENT {
        Some(CompilerStage::Fragment)
    } else if stage_flags == STAGE_COMPUTE {
        Some(CompilerStage::Compute)
    } else if stage_flags == STAGE_TESSELLATION_CONTROL {
        Some(CompilerStage::TessControl)
    } else if stage_flags == STAGE_TESSELLATION_EVALUATION {
        Some(CompilerStage::TessEvaluation)
    } else if stage_flags == STAGE_GEOMETRY {
        Some(CompilerStage::Geometry)
    } else if stage_flags == STAGE_RAYGEN {
        Some(CompilerStage::RayGeneration)
    } else if stage_flags == STAGE_ANY_HIT {
        Some(CompilerStage::AnyHit)
    } else if stage_flags == STAGE_CLOSEST_HIT {
        Some(CompilerStage::ClosestHit)
    } else if stage_flags == STAGE_MISS {
        Some(CompilerStage::Miss)
    } else if stage_flags == STAGE_INTERSECTION {
        Some(CompilerStage::Intersection)
    } else {
        None
    }
}

/// Map pipeline-stage flags to the compiler backend's stage enumeration.
/// Flags that name no single mapped stage yield `None`.
pub fn get_shaderc_stage(stage_flags: u32) -> (r: Option<CompilerStage>)
    ensures
        r == spec_shaderc_stage(stage_flags),
{
    if stage_flags == STAGE_VERTEX {
        Some(CompilerStage::Vertex)
    } else if stage_flags == STAGE_FRAGMENT {
        Some(CompilerStage::Fragment)
    } else if stage_flags == STAGE_COMPUTE {
        Some(CompilerStage::Compute)
    } else if stage_flags == STAGE_TESSELLATION_CONTROL {
        Some(CompilerStage::TessControl)
    } else if stage_flags == STAGE_TESSELLATION_EVALUATION {
        Some(CompilerStage::TessEvaluation)
    } else if stage_flags == STAGE_GEOMETRY {
        Some(CompilerStage::Geometry)
    } else if stage_flags == STAGE_RAYGEN {
        Some(CompilerStage::RayGeneration)
    } else if stage_flags == STAGE_ANY_HIT {
        Some(CompilerStage::AnyHit)
    } else if stage_flags == STAGE_CLOSEST_HIT {
        Some(CompilerStage::ClosestHit)
    } else if stage_flags == STAGE_MISS {
        Some(CompilerStage::Miss)
    } else if stage_flags == STAGE_INTERSECTION {
        Some(CompilerStage::Intersection)
    } else {
        None
    }
}

/// Everything the backend needs for one compile call, fixed before the
/// backend is invoked: the mapped stage, the source's logical file name and
/// the entry point, which is always `main`.
#[derive(Clone, Debug)]
pub struct CompileJob {
    pub stage: CompilerStage,
    pub input_file_name: String,
    pub entry_point: String,
}

/// Decide whether compilation may start. Returns the backend's parameters
/// when the stage flags are mapped, and `UnsupportedStage` otherwise, in
/// which case the backend must not be invoked.
pub fn plan_compilation(stage_flags: u32, input_file_name: String) -> (r: Result<
    CompileJob,
    ShaderError,
>)
    ensures
        r is Err <==> spec_shaderc_stage(stage_flags) is None,
        r is Err ==> r->Err_0 == ShaderError::UnsupportedStage(stage_flags),
        r is Ok ==> Some(r->Ok_0.stage) == spec_shaderc_stage(stage_flags),
        r is Ok ==> r->Ok_0.input_file_name == input_file_name,
        r is Ok ==> r->Ok_0.entry_point@ == "main"@,
{
    match get_shaderc_stage(stage_flags) {
        Some(stage) => Ok(
            CompileJob { stage, input_file_name, entry_point: "main".to_owned() },
        ),
        None => Err(ShaderError::UnsupportedStage(stage_flags)),
    }
}

/// A stage with no mapping is rejected as `UnsupportedStage`, and the
/// rejection is decided by the stage flags alone, before any backend work.
pub proof fn lemma_unmapped_stage_rejected(stage_flags: u32)
    ensures
        spec_shaderc_stage(stage_flags) is None <==> !(stage_flags == STAGE_VERTEX || stage_flags
            == STAGE_FRAGMENT || stage_flags == STAGE_COMPUTE || stage_flags
            == STAGE_TESSELLATION_CONTROL || stage_flags == STAGE_TESSELLATION_EVALUATION
            || stage_flags == STAGE_GEOMETRY || stage_flags == STAGE_RAYGEN || stage_flags
            == STAGE_ANY_HIT || stage_flags == STAGE_CLOSEST_HIT || stage_flags == STAGE_MISS
            || stage_flags == STAGE_INTERSECTION),
{
}

/// Classify a failed backend invocation. An unresolved import surfaces
/// through the backend only as diagnostic text, so the resolver records the
/// path it could not open; when one was recorded the failure is an import
/// resolution failure naming that path, otherwise the backend's diagnostic is
/// carried verbatim as a compilation failure. Either way no binary exists.
pub fn classify_backend_failure(unresolved_path: Option<String>, diagnostic: String) -> (r:
    ShaderError)
    ensures
        match unresolved_path {
            Some(p) => r == ShaderError::ImportResolutionFailure(p),
            None => r == ShaderError::CompilationFailure(diagnostic),
        },
{
    match unresolved_path {
        Some(p) => ShaderError::ImportResolutionFailure(p),
        None => ShaderError::CompilationFailure(diagnostic),
    }
}

/// The instruction word at word position `i`, read from four bytes in
/// little-endian order.
pub open spec fn spec_word_at(bytes: Seq<u8>, i: int) -> u32 {
    (bytes[4 * i] + bytes[4 * i + 1] * 0x100 + bytes[4 * i + 2] * 0x10000 + bytes[4 * i + 3]
        * 0x1000000) as u32
}

/// A loadable binary shader program: at least one whole word, a byte length
/// that is a multiple of the word size, and the magic first word.
pub open spec fn spec_valid_spirv(bytes: Seq<u8>) -> bool {
    &&& bytes.len() % 4 == 0
    &&& bytes.len() >= 4
    &&& spec_word_at(bytes, 0) == SPIRV_MAGIC
}

/// A binary that the loader accepts is a non-empty byte sequence whose length
/// is a multiple of the instruction-word size.
pub proof fn lemma_loadable_binary_is_word_aligned(bytes: Seq<u8>)
    requires
        spec_valid_spirv(bytes),
    ensures
        bytes.len() % 4 == 0,
        bytes.len() > 0,
{
}

/// Repack a compiled binary's bytes as instruction words, little-endian, for
/// loading at the device boundary. Fails with `ModuleLoadFailure` exactly on
/// misaligned or header-less input; on success every word is pinned to its
/// four source bytes.
pub fn spirv_words_from_bytes(bytes: &Vec<u8>) -> (r: Result<Vec<u32>, ShaderError>)
    ensures
        r is Ok <==> spec_valid_spirv(bytes@),
        r is Ok ==> r->Ok_0@.len() == bytes@.len() / 4,
        r is Ok ==> forall|i: int|
            0 <= i < r->Ok_0@.len() ==> #[trigger] r->Ok_0@[i] == spec_word_at(bytes@, i),
        r is Err ==> r->Err_0 is ModuleLoadFailure,
{
    let n = bytes.len();
    if n % 4 != 0 || n < 4 {
        return Err(
            ShaderError::ModuleLoadFailure(
                "binary length is not a positive multiple of the word size".to_owned(),
            ),
        );
    }
    let count = n / 4;
    let mut words: Vec<u32> = Vec::new();
    let mut i: usize = 0;
    while i < count
        invariant
            i <= count,
            count == bytes@.len() / 4,
            4 * count <= bytes@.len(),
            bytes@.len() <= usize::MAX,
            bytes@.len() % 4 == 0,
            bytes@.len() >= 4,
            words@.len() == i,
            forall|k: int| 0 <= k < i ==> #[trigger] words@[k] == spec_word_at(bytes@, k),
        decreases count - i,
    {
        assert(4 * i + 3 < bytes@.len());
        let b0 = bytes[4 * i];
        let b1 = bytes[4 * i + 1];
        let b2 = bytes[4 * i + 2];
        let b3 = bytes[4 * i + 3];
        let w = (b0 as u32) + (b1 as u32) * 0x100 + (b2 as u32) * 0x10000 + (b3 as u32)
            * 0x1000000;
        words.push(w);
        i += 1;
    }
    if words[0] != SPIRV_MAGIC {
        return Err(
            ShaderError::ModuleLoadFailure("binary does not begin with the magic word".to_owned()),
        );
    }
    Ok(words)
}

} // verus!
