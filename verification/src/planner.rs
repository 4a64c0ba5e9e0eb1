//! The flag planner.
//!
//! Composes the toolchain family, the architecture feature ladder and the
//! build profile into one `FlagSet`: the complete, deterministic set of
//! preprocessor defines, compiler flags, tentative (probe-first) flags and
//! include paths for one build. Two builds with identical inputs get
//! identical `FlagSet` contents.

use vstd::prelude::*;

use crate::ladder::FeatureTier;
use crate::ladder::TierView;
use crate::ladder::arch_ladder;
use crate::ladder::spec_ladder;
use crate::ladder::tier_views;
use crate::ladder::view_of_opt;
use crate::ladder::views_of;
use crate::strutil::str_eq;
use crate::toolchain::ToolchainFamily;

verus! {

/// The full accumulated configuration for one build: preprocessor defines,
/// compiler flags, flags to pass only if the compiler supports them, and
/// include paths. Derived deterministically from (architecture identifier,
/// toolchain family, build profile).
pub struct FlagSet {
    /// Preprocessor defines, in emission order.
    pub defines: Vec<&'static str>,
    /// Compiler flags, in emission order.
    pub flags: Vec<&'static str>,
    /// Flags requested only if the active compiler supports them.
    pub tentative_flags: Vec<&'static str>,
    /// Header include paths for the two embedded codebases.
    pub includes: Vec<&'static str>,
}

/// The mathematical content of a `FlagSet`.
pub struct FlagSetView {
    pub defines: Seq<Seq<char>>,
    pub flags: Seq<Seq<char>>,
    pub tentative_flags: Seq<Seq<char>>,
    pub includes: Seq<Seq<char>>,
}

impl View for FlagSet {
    type V = FlagSetView;

    open spec fn view(&self) -> FlagSetView {
        FlagSetView {
            defines: views_of(self.defines@),
            flags: views_of(self.flags@),
            tentative_flags: views_of(self.tentative_flags@),
            includes: views_of(self.includes@),
        }
    }
}

/// The debug build profile: the one profile that does not get the
/// production define.
pub open spec fn spec_debug_profile() -> Seq<char> {
    "debug"@
}

/// The production define, emitted whenever the profile is not the debug
/// profile.
pub open spec fn spec_production_define() -> Seq<char> {
    "NDEBUG"@
}

/// Defines emitted for every build regardless of architecture and
/// toolchain: the assembler dependency is declared in static-linkage mode,
/// and any non-debug profile gets the production define.
pub open spec fn spec_base_defines(profile: Seq<char>) -> Seq<Seq<char>> {
    if profile != spec_debug_profile() {
        seq!["ASMJIT_STATIC"@, spec_production_define()]
    } else {
        seq!["ASMJIT_STATIC"@]
    }
}

/// Defines contributed by one tier: the announcement define for every
/// family, plus the compatibility define for the MSVC-like family. A
/// disabled tier contributes nothing.
pub open spec fn spec_tier_defines(t: TierView, msvc: bool) -> Seq<Seq<char>> {
    if !t.enabled {
        Seq::<Seq<char>>::empty()
    } else {
        (match t.define {
            Some(d) => seq![d],
            None => Seq::<Seq<char>>::empty(),
        }) + (if msvc {
            match t.msvc_compat_define {
                Some(d) => seq![d],
                None => Seq::<Seq<char>>::empty(),
            }
        } else {
            Seq::<Seq<char>>::empty()
        })
    }
}

/// Defines contributed by a ladder, tier by tier in table order.
pub open spec fn spec_tiers_defines(ts: Seq<TierView>, msvc: bool) -> Seq<Seq<char>>
    decreases ts.len(),
{
    if ts.len() == 0 {
        Seq::<Seq<char>>::empty()
    } else {
        spec_tiers_defines(ts.drop_last(), msvc) + spec_tier_defines(ts.last(), msvc)
    }
}

/// POSIX flags contributed by one tier; a disabled tier contributes
/// nothing.
pub open spec fn spec_tier_posix_flags(t: TierView) -> Seq<Seq<char>> {
    if t.enabled {
        t.posix_flags
    } else {
        Seq::<Seq<char>>::empty()
    }
}

/// POSIX flags of a ladder: tiers compose additively, in table order, and a
/// flag repeated by a later tier is kept (idempotent repetition).
pub open spec fn spec_tiers_posix_flags(ts: Seq<TierView>) -> Seq<Seq<char>>
    decreases ts.len(),
{
    if ts.len() == 0 {
        Seq::<Seq<char>>::empty()
    } else {
        spec_tiers_posix_flags(ts.drop_last()) + spec_tier_posix_flags(ts.last())
    }
}

/// The MSVC instruction-set-floor flag of a ladder: the flag of the highest
/// enabled tier that carries one, since MSVC floors select a minimum rather
/// than stacking.
pub open spec fn spec_msvc_floor(ts: Seq<TierView>) -> Option<Seq<char>>
    decreases ts.len(),
{
    if ts.len() == 0 {
        None
    } else if ts.last().enabled && ts.last().msvc_flag is Some {
        ts.last().msvc_flag
    } else {
        spec_msvc_floor(ts.drop_last())
    }
}

/// Architecture-specific flags for one family: the additive POSIX ladder,
/// or the single MSVC floor flag.
pub open spec fn spec_arch_flags(ts: Seq<TierView>, family: ToolchainFamily) -> Seq<Seq<char>> {
    if family is Msvc {
        match spec_msvc_floor(ts) {
            Some(f) => seq![f],
            None => Seq::<Seq<char>>::empty(),
        }
    } else {
        spec_tiers_posix_flags(ts)
    }
}

/// The fixed hardening/portability flags for POSIX-like builds: hidden
/// symbol visibility, disabled exceptions and RTTI, relaxed floating-point
/// error semantics, and stricter constant merging.
pub open spec fn spec_posix_hardening() -> Seq<Seq<char>> {
    seq![
        "-fvisibility=hidden"@,
        "-fno-exceptions"@,
        "-fno-rtti"@,
        "-fno-math-errno"@,
        "-fno-semantic-interposition"@,
        "-fno-threadsafe-statics"@,
        "-fmerge-all-constants"@,
        "-ftree-vectorize"@,
    ]
}

/// The fixed hardening/conformance flags for MSVC-like builds: parallel
/// compilation, disabled RTTI, string pooling, and C++ standard conformance
/// toggles.
pub open spec fn spec_msvc_hardening() -> Seq<Seq<char>> {
    seq![
        "-MP"@,
        "-GR-"@,
        "-GF"@,
        "-Zc:__cplusplus"@,
        "-Zc:inline"@,
        "-Zc:strictStrings"@,
        "-Zc:threadSafeInit-"@,
    ]
}

/// The family's fixed hardening flag set; the two sets are mutually
/// exclusive per build.
pub open spec fn spec_hardening(family: ToolchainFamily) -> Seq<Seq<char>> {
    if family is Msvc {
        spec_msvc_hardening()
    } else {
        spec_posix_hardening()
    }
}

/// Flags requested for every build but passed only if the compiler supports
/// them: static linking and the C++ standard selection in both flag
/// dialects.
pub open spec fn spec_tentative_flags() -> Seq<Seq<char>> {
    seq!["-static"@, "-std=c++17"@, "/std:c++latest"@]
}

/// The include paths of the two embedded codebases.
pub open spec fn spec_include_paths() -> Seq<Seq<char>> {
    seq!["./asmjit/src"@, "./blend2d/src"@]
}

/// The complete planned flag set for one build.
pub open spec fn spec_flag_set(
    arch: Seq<char>,
    family: ToolchainFamily,
    profile: Seq<char>,
) -> FlagSetView {
    FlagSetView {
        defines: spec_base_defines(profile) + spec_tiers_defines(
            spec_ladder(arch),
            family is Msvc,
        ),
        flags: spec_arch_flags(spec_ladder(arch), family) + spec_hardening(family),
        tentative_flags: spec_tentative_flags(),
        includes: spec_include_paths(),
    }
}

/// The family's fixed hardening flag set as executable data.
pub fn hardening_flags(family: ToolchainFamily) -> (v: Vec<&'static str>)
    ensures
        views_of(v@) == spec_hardening(family),
{
    if family.is_msvc() {
        let v: Vec<&'static str> = vec![
            "-MP",
            "-GR-",
            "-GF",
            "-Zc:__cplusplus",
            "-Zc:inline",
            "-Zc:strictStrings",
            "-Zc:threadSafeInit-",
        ];
        proof {
            assert(views_of(v@) =~= spec_msvc_hardening());
        }
        v
    } else {
        let v: Vec<&'static str> = vec![
            "-fvisibility=hidden",
            "-fno-exceptions",
            "-fno-rtti",
            "-fno-math-errno",
            "-fno-semantic-interposition",
            "-fno-threadsafe-statics",
            "-fmerge-all-constants",
            "-ftree-vectorize",
        ];
        proof {
            assert(views_of(v@) =~= spec_posix_hardening());
        }
        v
    }
}

/// Plans the complete flag set for one build from the architecture
/// identifier, the toolchain family and the build profile. The result is a
/// pure function of these three inputs: planning twice with identical
/// inputs yields identical contents.
pub fn plan_flags(arch: &str, family: ToolchainFamily, profile: &str) -> (fs: FlagSet)
    ensures
        fs@ == spec_flag_set(arch@, family, profile@),
{
    let msvc = family.is_msvc();

    let mut defines: Vec<&'static str> = Vec::new();
    defines.push("ASMJIT_STATIC");
    if !str_eq(profile, "debug") {
        defines.push("NDEBUG");
    }
    proof {
        assert(views_of(defines@) =~= spec_base_defines(profile@));
    }
    let ghost base = spec_base_defines(profile@);

    let ladder: Vec<FeatureTier> = arch_ladder(arch);
    let ghost lv = tier_views(ladder@);

    let mut flags: Vec<&'static str> = Vec::new();
    let mut floor: Option<&'static str> = None;

    let mut i: usize = 0;
    while i < ladder.len()
        invariant
            i <= ladder.len(),
            lv == tier_views(ladder@),
            views_of(defines@) == base + spec_tiers_defines(lv.take(i as int), msvc),
            msvc ==> views_of(flags@) == Seq::<Seq<char>>::empty(),
            !msvc ==> views_of(flags@) == spec_tiers_posix_flags(lv.take(i as int)),
            view_of_opt(floor) == spec_msvc_floor(lv.take(i as int)),
        decreases ladder.len() - i,
    {
        let ghost prev_defines = views_of(defines@);
        let ghost prev_flags = views_of(flags@);
        proof {
            assert(lv.take(i + 1).drop_last() =~= lv.take(i as int));
            assert(lv.take(i + 1).last() == lv[i as int]);
            assert(lv[i as int] == ladder@[i as int]@);
        }
        let tier = &ladder[i];
        if tier.enabled {
            if let Some(d) = tier.define {
                defines.push(d);
            }
            if msvc {
                if let Some(cd) = tier.msvc_compat_define {
                    defines.push(cd);
                }
            }
            proof {
                assert(views_of(defines@) =~= prev_defines + spec_tier_defines(
                    lv[i as int],
                    msvc,
                ));
            }
            if !msvc {
                let ghost tflags = views_of(tier.posix_flags@);
                let mut j: usize = 0;
                while j < tier.posix_flags.len()
                    invariant
                        j <= tier.posix_flags.len(),
                        tflags == views_of(tier.posix_flags@),
                        views_of(flags@) == prev_flags + tflags.take(j as int),
                    decreases tier.posix_flags.len() - j,
                {
                    let ghost before = views_of(flags@);
                    let x = tier.posix_flags[j];
                    flags.push(x);
                    proof {
                        assert(views_of(flags@) =~= before.push(x@));
                        assert(tflags[j as int] == x@);
                        assert(tflags.take(j + 1) =~= tflags.take(j as int).push(x@));
                        assert(views_of(flags@) =~= prev_flags + tflags.take(j + 1));
                    }
                    j += 1;
                }
                proof {
                    assert(tflags.take(tier.posix_flags@.len() as int) =~= tflags);
                    assert(views_of(flags@) == prev_flags + spec_tier_posix_flags(lv[i as int]));
                }
            }
            if let Some(mf) = tier.msvc_flag {
                floor = Some(mf);
            }
        } else {
            proof {
                assert(views_of(defines@) =~= prev_defines + spec_tier_defines(
                    lv[i as int],
                    msvc,
                ));
                assert(prev_flags + spec_tier_posix_flags(lv[i as int]) =~= prev_flags);
            }
        }
        i += 1;
    }
    proof {
        assert(lv.take(ladder@.len() as int) =~= lv);
    }

    if msvc {
        if let Some(f) = floor {
            flags.push(f);
            proof {
                assert(views_of(flags@) =~= seq![f@]);
            }
        }
        proof {
            assert(views_of(flags@) =~= spec_arch_flags(lv, family));
        }
    }
    let ghost arch_part = views_of(flags@);
    proof {
        assert(arch_part == spec_arch_flags(lv, family));
    }

    let hard = hardening_flags(family);
    let mut k: usize = 0;
    while k < hard.len()
        invariant
            k <= hard.len(),
            views_of(flags@) == arch_part + views_of(hard@).take(k as int),
        decreases hard.len() - k,
    {
        let ghost before = views_of(flags@);
        let x = hard[k];
        flags.push(x);
        proof {
            assert(views_of(flags@) =~= before.push(x@));
            assert(views_of(hard@)[k as int] == x@);
            assert(views_of(hard@).take(k + 1) =~= views_of(hard@).take(k as int).push(x@));
            assert(views_of(flags@) =~= arch_part + views_of(hard@).take(k + 1));
        }
        k += 1;
    }
    proof {
        assert(views_of(hard@).take(hard@.len() as int) =~= views_of(hard@));
    }

    let tentative_flags: Vec<&'static str> = vec!["-static", "-std=c++17", "/std:c++latest"];
    let includes: Vec<&'static str> = vec!["./asmjit/src", "./blend2d/src"];
    proof {
        assert(views_of(tentative_flags@) =~= spec_tentative_flags());
        assert(views_of(includes@) =~= spec_include_paths());
        assert(lv == spec_ladder(arch@));
    }

    FlagSet { defines, flags, tentative_flags, includes }
}

} // verus!
