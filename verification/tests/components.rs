use blend2d_build::ToolchainFamily;
use blend2d_build::bindings::binding_request;
use blend2d_build::bindings::matches_allowlist;
use blend2d_build::ccbuild::configure_build;
use blend2d_build::discovery::is_compiled_source;
use blend2d_build::discovery::select_sources;
use blend2d_build::err_to_result;
use blend2d_build::linker::link_libraries;
use blend2d_build::plan_flags;
use blend2d_build::strutil::str_eq;
use blend2d_build::toolchain::family_of;

#[test]
fn link_list_windows() {
    assert_eq!(link_libraries("windows"), vec!["user32", "uuid", "shell32"]);
}

#[test]
fn link_list_linux() {
    assert_eq!(link_libraries("linux"), vec!["c", "m", "pthread", "rt"]);
}

#[test]
fn link_list_macos() {
    assert_eq!(link_libraries("macos"), vec!["c", "m", "pthread"]);
}

#[test]
fn link_list_unrecognized_is_empty() {
    assert!(link_libraries("").is_empty());
    assert!(link_libraries("freebsd").is_empty());
    assert!(link_libraries("Windows").is_empty());
    assert!(link_libraries("linux ").is_empty());
}

#[test]
fn source_selection_by_extension() {
    assert!(is_compiled_source("a.cpp"));
    assert!(is_compiled_source("src/blend2d/api.cpp"));
    assert!(is_compiled_source("deep/dir.cpp/x.cpp"));
    assert!(!is_compiled_source(".cpp"));
    assert!(!is_compiled_source("src/.cpp"));
    assert!(!is_compiled_source("a.cc"));
    assert!(!is_compiled_source("a.h"));
    assert!(!is_compiled_source("a.CPP"));
    assert!(!is_compiled_source("acpp"));
    assert!(!is_compiled_source(""));
}

#[test]
fn source_selection_keeps_order_and_drops_others() {
    let entries = vec![
        "b/one.cpp".to_string(),
        "b/readme.md".to_string(),
        "a/two.cpp".to_string(),
        "a/header.h".to_string(),
        "a/.cpp".to_string(),
    ];
    let sources = select_sources(&entries);
    assert_eq!(sources, vec!["b/one.cpp".to_string(), "a/two.cpp".to_string()]);
}

#[test]
fn allowlist_matches_engine_prefix_any_case() {
    assert!(matches_allowlist("blContextInit"));
    assert!(matches_allowlist("BLImageCore"));
    assert!(matches_allowlist("Blended"));
    assert!(matches_allowlist("bL"));
    assert!(!matches_allowlist("zlibVersion"));
    assert!(!matches_allowlist("b"));
    assert!(!matches_allowlist(""));
    assert!(!matches_allowlist("alBuffer"));
}

#[test]
fn binding_request_values() {
    let req = binding_request();
    assert_eq!(req.header, "blend2d/src/blend2d.h");
    assert_eq!(req.allowlist_pattern, "[Bb][Ll].*");
    assert_eq!(req.parse_defines, vec!["ASMJIT_STATIC"]);
    assert!(req.bitfield_enums);
}

#[test]
fn result_code_translation() {
    assert!(err_to_result(0).is_ok());
    assert!(err_to_result(1).is_err());
    assert!(err_to_result(u32::MAX).is_err());
}

#[test]
fn family_classification() {
    assert_eq!(family_of(true), ToolchainFamily::Msvc);
    assert_eq!(family_of(false), ToolchainFamily::Posix);
    assert!(family_of(true).is_msvc());
    assert!(!family_of(false).is_msvc());
}

#[test]
fn string_equality() {
    assert!(str_eq("x86_64", "x86_64"));
    assert!(!str_eq("x86_64", "x86_65"));
    assert!(!str_eq("x86_64", "x86_6"));
    assert!(str_eq("", ""));
    assert!(!str_eq("", "a"));
}

#[test]
fn plan_applies_to_compiler_driver() {
    // Recording a plan in the real compiler driver touches neither the
    // filesystem nor the compiler, and the driver reports back exactly the
    // source files that were handed in, in order.
    let mut cfg = cc::Build::new();
    let fs = plan_flags("x86_64", ToolchainFamily::Posix, "release");
    let sources = vec![
        "blend2d/src/api.cpp".to_string(),
        "asmjit/src/core.cpp".to_string(),
    ];
    configure_build(&mut cfg, &fs, &sources);
    let recorded: Vec<String> = cfg
        .get_files()
        .map(|p| p.to_string_lossy().into_owned())
        .collect();
    assert_eq!(recorded, sources);
}

#[test]
fn error_message_text() {
    let e = err_to_result(2).unwrap_err();
    assert_eq!(e.message(), "error");
}
