use gpu_select::shader::{
    classify_backend_failure, get_shaderc_stage, plan_compilation, spirv_words_from_bytes,
    CompilerStage, ShaderError,
    SPIRV_MAGIC, STAGE_ANY_HIT, STAGE_CLOSEST_HIT, STAGE_COMPUTE, STAGE_FRAGMENT, STAGE_GEOMETRY,
    STAGE_INTERSECTION, STAGE_MISS, STAGE_RAYGEN, STAGE_TESSELLATION_CONTROL,
    STAGE_TESSELLATION_EVALUATION, STAGE_VERTEX,
};

#[test]
fn every_mapped_stage_has_its_compiler_target() {
    assert_eq!(get_shaderc_stage(STAGE_VERTEX), Some(CompilerStage::Vertex));
    assert_eq!(get_shaderc_stage(STAGE_FRAGMENT), Some(CompilerStage::Fragment));
    assert_eq!(get_shaderc_stage(STAGE_COMPUTE), Some(CompilerStage::Compute));
    assert_eq!(
        get_shaderc_stage(STAGE_TESSELLATION_CONTROL),
        Some(CompilerStage::TessControl)
    );
    assert_eq!(
        get_shaderc_stage(STAGE_TESSELLATION_EVALUATION),
        Some(CompilerStage::TessEvaluation)
    );
    assert_eq!(get_shaderc_stage(STAGE_GEOMETRY), Some(CompilerStage::Geometry));
    assert_eq!(get_shaderc_stage(STAGE_RAYGEN), Some(CompilerStage::RayGeneration));
    assert_eq!(get_shaderc_stage(STAGE_ANY_HIT), Some(CompilerStage::AnyHit));
    assert_eq!(get_shaderc_stage(STAGE_CLOSEST_HIT), Some(CompilerStage::ClosestHit));
    assert_eq!(get_shaderc_stage(STAGE_MISS), Some(CompilerStage::Miss));
    assert_eq!(get_shaderc_stage(STAGE_INTERSECTION), Some(CompilerStage::Intersection));
}

#[test]
fn unmapped_stage_flags_have_no_target() {
    assert_eq!(get_shaderc_stage(0), None);
    assert_eq!(get_shaderc_stage(0x40), None);
    assert_eq!(get_shaderc_stage(0x2000), None);
    assert_eq!(get_shaderc_stage(STAGE_VERTEX | STAGE_FRAGMENT), None);
}

#[test]
fn unmapped_stage_is_rejected_before_the_backend() {
    let err = plan_compilation(0x2000, String::from("pass.rchit")).unwrap_err();
    assert_eq!(err, ShaderError::UnsupportedStage(0x2000));
}

#[test]
fn mapped_stage_yields_a_job_with_entry_point_main() {
    let job = plan_compilation(STAGE_FRAGMENT, String::from("pass.frag")).unwrap();
    assert_eq!(job.stage, CompilerStage::Fragment);
    assert_eq!(job.input_file_name, "pass.frag");
    assert_eq!(job.entry_point, "main");
}

#[test]
fn unresolved_import_dominates_the_backend_diagnostic() {
    let err = classify_backend_failure(
        Some(String::from("/a/b/common.glsl")),
        String::from("compilation error: cannot open file"),
    );
    assert_eq!(
        err,
        ShaderError::ImportResolutionFailure(String::from("/a/b/common.glsl"))
    );
}

#[test]
fn backend_rejection_carries_the_diagnostic_verbatim() {
    let err = classify_backend_failure(None, String::from("syntax error at line 3"));
    assert_eq!(
        err,
        ShaderError::CompilationFailure(String::from("syntax error at line 3"))
    );
}

#[test]
fn words_are_packed_little_endian() {
    let bytes = vec![0x03, 0x02, 0x23, 0x07, 0x78, 0x56, 0x34, 0x12];
    let words = spirv_words_from_bytes(&bytes).unwrap();
    assert_eq!(words, vec![SPIRV_MAGIC, 0x12345678]);
}

#[test]
fn misaligned_binary_fails_to_load() {
    let bytes = vec![0x03, 0x02, 0x23, 0x07, 0x78];
    let err = spirv_words_from_bytes(&bytes).unwrap_err();
    assert!(matches!(err, ShaderError::ModuleLoadFailure(_)));
}

#[test]
fn empty_binary_fails_to_load() {
    let err = spirv_words_from_bytes(&Vec::new()).unwrap_err();
    assert!(matches!(err, ShaderError::ModuleLoadFailure(_)));
}

#[test]
fn binary_without_the_magic_word_fails_to_load() {
    let bytes = vec![0x78, 0x56, 0x34, 0x12];
    let err = spirv_words_from_bytes(&bytes).unwrap_err();
    assert!(matches!(err, ShaderError::ModuleLoadFailure(_)));
}

#[test]
fn word_count_is_byte_length_over_word_size() {
    let mut bytes = vec![0x03, 0x02, 0x23, 0x07];
    for i in 0..16u8 {
        bytes.push(i);
    }
    let words = spirv_words_from_bytes(&bytes).unwrap();
    assert_eq!(words.len(), bytes.len() / 4);
    assert_eq!(words[0], SPIRV_MAGIC);
    assert_eq!(words[1], 0x03020100);
    assert_eq!(words[4], 0x0f0e0d0c);
}
