use blend2d_build::plan_build;
use blend2d_build::plan_flags;
use blend2d_build::ToolchainFamily;
use blend2d_build::planner::hardening_flags;

const POSIX_HARDENING: [&str; 8] = [
    "-fvisibility=hidden",
    "-fno-exceptions",
    "-fno-rtti",
    "-fno-math-errno",
    "-fno-semantic-interposition",
    "-fno-threadsafe-statics",
    "-fmerge-all-constants",
    "-ftree-vectorize",
];

const MSVC_HARDENING: [&str; 7] = [
    "-MP",
    "-GR-",
    "-GF",
    "-Zc:__cplusplus",
    "-Zc:inline",
    "-Zc:strictStrings",
    "-Zc:threadSafeInit-",
];

#[test]
fn x86_64_posix_release_full_ladder() {
    let fs = plan_flags("x86_64", ToolchainFamily::Posix, "release");
    assert_eq!(
        fs.defines,
        vec![
            "ASMJIT_STATIC",
            "NDEBUG",
            "BL_BUILD_OPT_SSE2",
            "BL_BUILD_OPT_SSE3",
            "BL_BUILD_OPT_SSSE3",
            "BL_BUILD_OPT_SSE4_1",
            "BL_BUILD_OPT_SSE4_2",
            "BL_BUILD_OPT_AVX",
            "BL_BUILD_OPT_AVX2",
        ]
    );
    let mut expected_flags = vec![
        "-msse2",
        "-msse3",
        "-mssse3",
        "-msse4.1",
        "-mpopcnt",
        "-mpclmul",
        "-msse4.2",
        "-mpopcnt",
        "-mpclmul",
        "-mavx",
        "-mpopcnt",
        "-mpclmul",
        "-mbmi",
        "-mbmi2",
        "-mavx2",
    ];
    expected_flags.extend_from_slice(&POSIX_HARDENING);
    assert_eq!(fs.flags, expected_flags);
    assert_eq!(fs.tentative_flags, vec!["-static", "-std=c++17", "/std:c++latest"]);
    assert_eq!(fs.includes, vec!["./asmjit/src", "./blend2d/src"]);
}

#[test]
fn x86_64_msvc_floor_is_widest_enabled_tier() {
    let fs = plan_flags("x86_64", ToolchainFamily::Msvc, "release");
    assert_eq!(
        fs.defines,
        vec![
            "ASMJIT_STATIC",
            "NDEBUG",
            "BL_BUILD_OPT_SSE2",
            "BL_BUILD_OPT_SSE3",
            "__SSE3__",
            "BL_BUILD_OPT_SSSE3",
            "__SSSE3__",
            "BL_BUILD_OPT_SSE4_1",
            "__SSE4_1__",
            "BL_BUILD_OPT_SSE4_2",
            "BL_BUILD_OPT_AVX",
            "BL_BUILD_OPT_AVX2",
        ]
    );
    let mut expected_flags = vec!["/arch:AVX2"];
    expected_flags.extend_from_slice(&MSVC_HARDENING);
    assert_eq!(fs.flags, expected_flags);
}

#[test]
fn i686_matches_x86_64() {
    let a = plan_flags("i686", ToolchainFamily::Posix, "release");
    let b = plan_flags("x86_64", ToolchainFamily::Posix, "release");
    assert_eq!(a.defines, b.defines);
    assert_eq!(a.flags, b.flags);
}

#[test]
fn aarch64_posix_neon_flag() {
    let fs = plan_flags("aarch64", ToolchainFamily::Posix, "release");
    assert_eq!(fs.defines, vec!["ASMJIT_STATIC", "NDEBUG"]);
    let mut expected_flags = vec!["-march=armv8-a+crc+simd"];
    expected_flags.extend_from_slice(&POSIX_HARDENING);
    assert_eq!(fs.flags, expected_flags);
}

#[test]
fn arm_posix_neon_fpu_flag() {
    let fs = plan_flags("arm", ToolchainFamily::Posix, "debug");
    assert_eq!(fs.defines, vec!["ASMJIT_STATIC"]);
    let mut expected_flags = vec!["-mfpu=neon"];
    expected_flags.extend_from_slice(&POSIX_HARDENING);
    assert_eq!(fs.flags, expected_flags);
}

#[test]
fn aarch64_msvc_compat_define_without_floor_flag() {
    let fs = plan_flags("aarch64", ToolchainFamily::Msvc, "debug");
    assert_eq!(fs.defines, vec!["ASMJIT_STATIC", "__ARM_NEON__"]);
    assert_eq!(fs.flags, MSVC_HARDENING.to_vec());
}

#[test]
fn tier_defines_equal_across_families() {
    // The announcement defines are toolchain-independent: dropping the
    // MSVC-only compatibility defines (double-underscore names) from the
    // MSVC run leaves exactly the POSIX run's define list.
    for arch in ["x86_64", "i686", "aarch64", "arm", "riscv64", ""] {
        let posix = plan_flags(arch, ToolchainFamily::Posix, "release");
        let msvc = plan_flags(arch, ToolchainFamily::Msvc, "release");
        let msvc_without_compat: Vec<&str> = msvc
            .defines
            .iter()
            .copied()
            .filter(|d| !d.starts_with("__"))
            .collect();
        assert_eq!(posix.defines, msvc_without_compat, "arch {arch}");
    }
}

#[test]
fn flags_drawn_from_matching_family_only() {
    for arch in ["x86_64", "i686", "aarch64", "arm", "riscv64"] {
        let posix = plan_flags(arch, ToolchainFamily::Posix, "release");
        for f in &posix.flags {
            assert!(!MSVC_HARDENING.contains(f), "arch {arch} leaked {f}");
            assert!(f.starts_with('-'));
        }
        let msvc = plan_flags(arch, ToolchainFamily::Msvc, "release");
        for f in &msvc.flags {
            assert!(!POSIX_HARDENING.contains(f), "arch {arch} leaked {f}");
            assert!(f.starts_with('-') || f.starts_with('/'));
        }
    }
}

#[test]
fn unknown_arch_msvc_debug_baseline() {
    let fs = plan_flags("unknown_arch", ToolchainFamily::Msvc, "debug");
    assert_eq!(fs.defines, vec!["ASMJIT_STATIC"]);
    assert_eq!(fs.flags, MSVC_HARDENING.to_vec());
}

#[test]
fn unknown_arch_posix_baseline() {
    let fs = plan_flags("wasm32", ToolchainFamily::Posix, "release");
    assert_eq!(fs.defines, vec!["ASMJIT_STATIC", "NDEBUG"]);
    assert_eq!(fs.flags, POSIX_HARDENING.to_vec());
}

#[test]
fn production_define_tracks_profile() {
    assert!(plan_flags("x86_64", ToolchainFamily::Posix, "release").defines.contains(&"NDEBUG"));
    assert!(plan_flags("x86_64", ToolchainFamily::Posix, "bench").defines.contains(&"NDEBUG"));
    assert!(!plan_flags("x86_64", ToolchainFamily::Posix, "debug").defines.contains(&"NDEBUG"));
    assert!(!plan_flags("arm", ToolchainFamily::Msvc, "debug").defines.contains(&"NDEBUG"));
}

#[test]
fn hardening_sets_disjoint() {
    let posix = hardening_flags(ToolchainFamily::Posix);
    let msvc = hardening_flags(ToolchainFamily::Msvc);
    assert_eq!(posix, POSIX_HARDENING.to_vec());
    assert_eq!(msvc, MSVC_HARDENING.to_vec());
    for f in &posix {
        assert!(!msvc.contains(f));
    }
}

#[test]
fn planning_is_deterministic() {
    let a = plan_build("x86_64", "linux", "release", ToolchainFamily::Posix);
    let b = plan_build("x86_64", "linux", "release", ToolchainFamily::Posix);
    assert_eq!(a.flag_set.defines, b.flag_set.defines);
    assert_eq!(a.flag_set.flags, b.flag_set.flags);
    assert_eq!(a.flag_set.tentative_flags, b.flag_set.tentative_flags);
    assert_eq!(a.flag_set.includes, b.flag_set.includes);
    assert_eq!(a.link_libraries, b.link_libraries);
    assert_eq!(a.artifact_name, b.artifact_name);
}

#[test]
fn full_pipeline_x86_64_posix_release_linux() {
    let plan = plan_build("x86_64", "linux", "release", ToolchainFamily::Posix);
    assert!(plan.flag_set.defines.contains(&"NDEBUG"));
    assert!(plan.flag_set.defines.contains(&"BL_BUILD_OPT_AVX2"));
    // The widest tier is withheld by policy.
    assert!(!plan.flag_set.defines.contains(&"BL_BUILD_OPT_AVX512"));
    assert!(!plan.flag_set.flags.iter().any(|f| f.contains("avx512")));
    for f in POSIX_HARDENING {
        assert!(plan.flag_set.flags.contains(&f));
    }
    assert_eq!(plan.link_libraries, vec!["c", "m", "pthread", "rt"]);
    assert_eq!(plan.artifact_name, "blend2d");
}

#[test]
fn full_pipeline_unknown_arch_msvc_debug() {
    let plan = plan_build("unknown_arch", "haiku", "debug", ToolchainFamily::Msvc);
    assert_eq!(plan.flag_set.defines, vec!["ASMJIT_STATIC"]);
    assert_eq!(plan.flag_set.flags, MSVC_HARDENING.to_vec());
    assert!(plan.link_libraries.is_empty());
}
