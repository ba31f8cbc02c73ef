use gpu_select::imports::{join_path, parent_dir, ImportStore};
use gpu_select::shader::ShaderError;

#[test]
fn join_is_path_join_deterministic() {
    assert_eq!(join_path("/a/b", "foo.glsl"), "/a/b/foo.glsl");
    assert_eq!(join_path("/a/b", "foo.glsl"), "/a/b/foo.glsl");
}

#[test]
fn join_with_trailing_separator_adds_no_second_one() {
    assert_eq!(join_path("/a/b/", "foo.glsl"), "/a/b/foo.glsl");
}

#[test]
fn join_with_empty_origin_keeps_the_name() {
    assert_eq!(join_path("", "foo.glsl"), "foo.glsl");
}

#[test]
fn join_with_absolute_name_keeps_the_name_alone() {
    assert_eq!(join_path("/a/b", "/x/y.glsl"), "/x/y.glsl");
}

#[test]
fn parent_dir_is_everything_before_the_last_separator() {
    assert_eq!(parent_dir("/a/b/c.glsl"), "/a/b");
    assert_eq!(parent_dir("shaders/common.glsl"), "shaders");
    assert_eq!(parent_dir("c.glsl"), "");
    assert_eq!(parent_dir(""), "");
}

#[test]
fn resolution_reads_the_store_under_the_joined_path() {
    let mut store = ImportStore::new();
    store.add(
        String::from("shaders/common.glsl"),
        String::from("vec4 shade();"),
    );
    let resolved = store.resolve("shaders", "common.glsl").unwrap();
    assert_eq!(resolved.resolved_name, "shaders/common.glsl");
    assert_eq!(resolved.content, "vec4 shade();");
}

#[test]
fn resolution_is_independent_of_prior_resolutions() {
    let mut store = ImportStore::new();
    store.add(String::from("/a/b/foo.glsl"), String::from("int x;"));
    store.add(String::from("/a/other.glsl"), String::from("int y;"));
    let first = store.resolve("/a/b", "foo.glsl").unwrap();
    let _ = store.resolve("/a", "other.glsl").unwrap();
    let second = store.resolve("/a/b", "foo.glsl").unwrap();
    assert_eq!(first.resolved_name, "/a/b/foo.glsl");
    assert_eq!(second.resolved_name, first.resolved_name);
    assert_eq!(second.content, first.content);
}

#[test]
fn missing_import_fails_naming_the_joined_path() {
    let store = ImportStore::new();
    let err = store.resolve("shaders", "common.glsl").unwrap_err();
    match err {
        ShaderError::ImportResolutionFailure(path) => {
            assert_eq!(path, "shaders/common.glsl");
        }
        other => panic!("expected an import resolution failure, got {:?}", other),
    }
}

#[test]
fn nested_resolution_uses_the_importing_files_directory() {
    let mut store = ImportStore::new();
    store.add(String::from("/root/lib/inner.glsl"), String::from("int z;"));
    // The first resolution yields the importing file's path; its parent
    // directory is the origin of the nested request.
    let outer_name = join_path("/root", "lib/outer.glsl");
    assert_eq!(outer_name, "/root/lib/outer.glsl");
    let origin = parent_dir(&outer_name);
    assert_eq!(origin, "/root/lib");
    let inner = store.resolve(&origin, "inner.glsl").unwrap();
    assert_eq!(inner.resolved_name, "/root/lib/inner.glsl");
    assert_eq!(inner.content, "int z;");
}
