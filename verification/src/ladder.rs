//! The architecture feature ladder.
//!
//! For each supported architecture a fixed, ordered table lists SIMD feature
//! tiers from weakest to strongest. Each tier carries an announcement define
//! (emitted for every toolchain family, so compiled sources can see the
//! ceiling of tiers potentially available), zero or more POSIX-style flags
//! (tiers compose additively for POSIX-like toolchains), an optional single
//! MSVC-style instruction-set-floor flag (only the highest enabled tier's
//! flag is passed, since MSVC floors do not stack), and an optional
//! MSVC-only compatibility define (simulating a macro that POSIX compilers
//! would define themselves once the matching flag is active).
//!
//! A tier can be administratively disabled: it keeps its place in the table
//! but contributes nothing, without altering the ordering or the defines of
//! the other tiers.

use vstd::prelude::*;

verus! {

/// One step of an architecture's SIMD capability ladder.
pub struct FeatureTier {
    /// Feature-announcement define, emitted for every toolchain family.
    pub define: Option<&'static str>,
    /// Flags appended for POSIX-like toolchains; tiers compose additively.
    pub posix_flags: Vec<&'static str>,
    /// Candidate instruction-set-floor flag for MSVC-like toolchains.
    pub msvc_flag: Option<&'static str>,
    /// Compatibility define emitted only for MSVC-like toolchains.
    pub msvc_compat_define: Option<&'static str>,
    /// Policy toggle: a disabled tier contributes nothing while keeping the
    /// ordering and defines of the other tiers intact.
    pub enabled: bool,
}

/// The mathematical content of a `FeatureTier`.
pub struct TierView {
    pub define: Option<Seq<char>>,
    pub posix_flags: Seq<Seq<char>>,
    pub msvc_flag: Option<Seq<char>>,
    pub msvc_compat_define: Option<Seq<char>>,
    pub enabled: bool,
}

/// The views of a sequence of string slices.
pub open spec fn views_of(v: Seq<&'static str>) -> Seq<Seq<char>> {
    v.map_values(|s: &'static str| s@)
}

/// The view of an optional string slice.
pub open spec fn view_of_opt(o: Option<&'static str>) -> Option<Seq<char>> {
    match o {
        Some(s) => Some(s@),
        None => None,
    }
}

impl View for FeatureTier {
    type V = TierView;

    open spec fn view(&self) -> TierView {
        TierView {
            define: view_of_opt(self.define),
            posix_flags: views_of(self.posix_flags@),
            msvc_flag: view_of_opt(self.msvc_flag),
            msvc_compat_define: view_of_opt(self.msvc_compat_define),
            enabled: self.enabled,
        }
    }
}

/// The views of a sequence of feature tiers.
pub open spec fn tier_views(v: Seq<FeatureTier>) -> Seq<TierView> {
    v.map_values(|t: FeatureTier| t@)
}

/// The ladder for the two x86 architecture generations: the baseline vector
/// extension, three widening tiers that only announce themselves (their
/// MSVC entries exist solely for the compatibility define), then three
/// tiers with instruction-set-floor flags. The widest tier is withheld by
/// policy: it destabilizes runtime feature detection.
pub open spec fn spec_x86_ladder() -> Seq<TierView> {
    seq![
        TierView {
            define: Some("BL_BUILD_OPT_SSE2"@),
            posix_flags: seq!["-msse2"@],
            msvc_flag: Some("/arch:SSE2"@),
            msvc_compat_define: None,
            enabled: true,
        },
        TierView {
            define: Some("BL_BUILD_OPT_SSE3"@),
            posix_flags: seq!["-msse3"@],
            msvc_flag: None,
            msvc_compat_define: Some("__SSE3__"@),
            enabled: true,
        },
        TierView {
            define: Some("BL_BUILD_OPT_SSSE3"@),
            posix_flags: seq!["-mssse3"@],
            msvc_flag: None,
            msvc_compat_define: Some("__SSSE3__"@),
            enabled: true,
        },
        TierView {
            define: Some("BL_BUILD_OPT_SSE4_1"@),
            posix_flags: seq!["-msse4.1"@],
            msvc_flag: None,
            msvc_compat_define: Some("__SSE4_1__"@),
            enabled: true,
        },
        TierView {
            define: Some("BL_BUILD_OPT_SSE4_2"@),
            posix_flags: seq!["-mpopcnt"@, "-mpclmul"@, "-msse4.2"@],
            msvc_flag: Some("/arch:SSE4.2"@),
            msvc_compat_define: None,
            enabled: true,
        },
        TierView {
            define: Some("BL_BUILD_OPT_AVX"@),
            posix_flags: seq!["-mpopcnt"@, "-mpclmul"@, "-mavx"@],
            msvc_flag: Some("/arch:AVX"@),
            msvc_compat_define: None,
            enabled: true,
        },
        TierView {
            define: Some("BL_BUILD_OPT_AVX2"@),
            posix_flags: seq!["-mpopcnt"@, "-mpclmul"@, "-mbmi"@, "-mbmi2"@, "-mavx2"@],
            msvc_flag: Some("/arch:AVX2"@),
            msvc_compat_define: None,
            enabled: true,
        },
        TierView {
            define: Some("BL_BUILD_OPT_AVX512"@),
            posix_flags: seq![
                "-mpopcnt"@,
                "-mpclmul"@,
                "-mbmi"@,
                "-mbmi2"@,
                "-mavx512f"@,
                "-mavx512bw"@,
                "-mavx512dq"@,
                "-mavx512cd"@,
                "-mavx512vl"@,
            ],
            msvc_flag: Some("/arch:AVX512"@),
            msvc_compat_define: None,
            enabled: false,
        },
    ]
}

/// The single-tier ladder for the ARM architectures: the NEON tier carries
/// no announcement define, one POSIX machine flag that differs between the
/// 64-bit and 32-bit generation, and an MSVC compatibility define.
pub open spec fn spec_arm_ladder(is_aarch64: bool) -> Seq<TierView> {
    seq![
        TierView {
            define: None,
            posix_flags: seq![
                if is_aarch64 {
                    "-march=armv8-a+crc+simd"@
                } else {
                    "-mfpu=neon"@
                },
            ],
            msvc_flag: None,
            msvc_compat_define: Some("__ARM_NEON__"@),
            enabled: true,
        },
    ]
}

/// The ladder table for an architecture identifier. Architectures absent
/// from the table get the empty ladder: baseline portable compilation, not
/// an error.
pub open spec fn spec_ladder(arch: Seq<char>) -> Seq<TierView> {
    if arch == "x86_64"@ || arch == "i686"@ {
        spec_x86_ladder()
    } else if arch == "aarch64"@ {
        spec_arm_ladder(true)
    } else if arch == "arm"@ {
        spec_arm_ladder(false)
    } else {
        Seq::<TierView>::empty()
    }
}

/// An architecture identifier that has a ladder in the table.
pub open spec fn spec_arch_listed(arch: Seq<char>) -> bool {
    arch == "x86_64"@ || arch == "i686"@ || arch == "aarch64"@ || arch == "arm"@
}

/// Builds the feature-tier table for an architecture identifier, weakest
/// tier first. Unlisted architectures get an empty table.
pub fn arch_ladder(arch: &str) -> (ladder: Vec<FeatureTier>)
    ensures
        tier_views(ladder@) == spec_ladder(arch@),
{
    if crate::strutil::str_eq(arch, "x86_64") || crate::strutil::str_eq(arch, "i686") {
        x86_ladder()
    } else if crate::strutil::str_eq(arch, "aarch64") {
        arm_ladder(true)
    } else if crate::strutil::str_eq(arch, "arm") {
        arm_ladder(false)
    } else {
        let ladder: Vec<FeatureTier> = Vec::new();
        proof {
            assert(tier_views(ladder@) =~= Seq::<TierView>::empty());
        }
        ladder
    }
}

/// The x86 tier table as executable data.
fn x86_ladder() -> (ladder: Vec<FeatureTier>)
    ensures
        tier_views(ladder@) == spec_x86_ladder(),
{
    let ladder: Vec<FeatureTier> = vec![
        FeatureTier {
            define: Some("BL_BUILD_OPT_SSE2"),
            posix_flags: vec!["-msse2"],
            msvc_flag: Some("/arch:SSE2"),
            msvc_compat_define: None,
            enabled: true,
        },
        FeatureTier {
            define: Some("BL_BUILD_OPT_SSE3"),
            posix_flags: vec!["-msse3"],
            msvc_flag: None,
            msvc_compat_define: Some("__SSE3__"),
            enabled: true,
        },
        FeatureTier {
            define: Some("BL_BUILD_OPT_SSSE3"),
            posix_flags: vec!["-mssse3"],
            msvc_flag: None,
            msvc_compat_define: Some("__SSSE3__"),
            enabled: true,
        },
        FeatureTier {
            define: Some("BL_BUILD_OPT_SSE4_1"),
            posix_flags: vec!["-msse4.1"],
            msvc_flag: None,
            msvc_compat_define: Some("__SSE4_1__"),
            enabled: true,
        },
        FeatureTier {
            define: Some("BL_BUILD_OPT_SSE4_2"),
            posix_flags: vec!["-mpopcnt", "-mpclmul", "-msse4.2"],
            msvc_flag: Some("/arch:SSE4.2"),
            msvc_compat_define: None,
            enabled: true,
        },
        FeatureTier {
            define: Some("BL_BUILD_OPT_AVX"),
            posix_flags: vec!["-mpopcnt", "-mpclmul", "-mavx"],
            msvc_flag: Some("/arch:AVX"),
            msvc_compat_define: None,
            enabled: true,
        },
        FeatureTier {
            define: Some("BL_BUILD_OPT_AVX2"),
            posix_flags: vec!["-mpopcnt", "-mpclmul", "-mbmi", "-mbmi2", "-mavx2"],
            msvc_flag: Some("/arch:AVX2"),
            msvc_compat_define: None,
            enabled: true,
        },
        FeatureTier {
            define: Some("BL_BUILD_OPT_AVX512"),
            posix_flags: vec![
                "-mpopcnt",
                "-mpclmul",
                "-mbmi",
                "-mbmi2",
                "-mavx512f",
                "-mavx512bw",
                "-mavx512dq",
                "-mavx512cd",
                "-mavx512vl",
            ],
            msvc_flag: Some("/arch:AVX512"),
            msvc_compat_define: None,
            enabled: false,
        },
    ];
    proof {
        assert(views_of(ladder@[0].posix_flags@) =~= spec_x86_ladder()[0].posix_flags);
        assert(views_of(ladder@[1].posix_flags@) =~= spec_x86_ladder()[1].posix_flags);
        assert(views_of(ladder@[2].posix_flags@) =~= spec_x86_ladder()[2].posix_flags);
        assert(views_of(ladder@[3].posix_flags@) =~= spec_x86_ladder()[3].posix_flags);
        assert(views_of(ladder@[4].posix_flags@) =~= spec_x86_ladder()[4].posix_flags);
        assert(views_of(ladder@[5].posix_flags@) =~= spec_x86_ladder()[5].posix_flags);
        assert(views_of(ladder@[6].posix_flags@) =~= spec_x86_ladder()[6].posix_flags);
        assert(views_of(ladder@[7].posix_flags@) =~= spec_x86_ladder()[7].posix_flags);
        assert(tier_views(ladder@) =~= spec_x86_ladder());
    }
    ladder
}

/// The ARM tier table as executable data.
fn arm_ladder(is_aarch64: bool) -> (ladder: Vec<FeatureTier>)
    ensures
        tier_views(ladder@) == spec_arm_ladder(is_aarch64),
{
    let flag: &'static str = if is_aarch64 {
        "-march=armv8-a+crc+simd"
    } else {
        "-mfpu=neon"
    };
    let ladder: Vec<FeatureTier> = vec![
        FeatureTier {
            define: None,
            posix_flags: vec![flag],
            msvc_flag: None,
            msvc_compat_define: Some("__ARM_NEON__"),
            enabled: true,
        },
    ];
    proof {
        assert(views_of(ladder@[0].posix_flags@) =~= spec_arm_ladder(is_aarch64)[0].posix_flags);
        assert(tier_views(ladder@) =~= spec_arm_ladder(is_aarch64));
    }
    ladder
}

} // verus!
