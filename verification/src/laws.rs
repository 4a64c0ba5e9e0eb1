//! Cross-cutting guarantees of the planner, stated and proved once over all
//! inputs: which defines and flags a plan can ever contain, that the tier
//! defines do not depend on the toolchain family, that unlisted
//! architectures get baseline plans, that the production define tracks the
//! profile, and that the two hardening flag families never mix.

use vstd::prelude::*;

use crate::ladder::TierView;
use crate::ladder::spec_arch_listed;
use crate::ladder::spec_ladder;
use crate::planner::spec_arch_flags;
use crate::planner::spec_base_defines;
use crate::planner::spec_debug_profile;
use crate::planner::spec_flag_set;
use crate::planner::spec_hardening;
use crate::planner::spec_msvc_floor;
use crate::planner::spec_msvc_hardening;
use crate::planner::spec_posix_hardening;
use crate::planner::spec_production_define;
use crate::planner::spec_tier_defines;
use crate::planner::spec_tier_posix_flags;
use crate::planner::spec_tiers_defines;
use crate::planner::spec_tiers_posix_flags;
use crate::toolchain::ToolchainFamily;

verus! {

/// Membership in a concatenation is membership in either part.
proof fn lemma_add_contains<A>(a: Seq<A>, b: Seq<A>, x: A)
    ensures
        (a + b).contains(x) <==> a.contains(x) || b.contains(x),
{
    if (a + b).contains(x) {
        let i = choose|i: int| 0 <= i < (a + b).len() && (a + b)[i] == x;
        if i < a.len() {
            assert(a[i] == x);
        } else {
            assert(b[i - a.len()] == x);
        }
    }
    if a.contains(x) {
        let i = choose|i: int| 0 <= i < a.len() && a[i] == x;
        assert((a + b)[i] == x);
    }
    if b.contains(x) {
        let i = choose|i: int| 0 <= i < b.len() && b[i] == x;
        assert((a + b)[a.len() + i] == x);
    }
}

/// Some enabled tier of the ladder announces this define.
pub open spec fn spec_announce_in(ts: Seq<TierView>, d: Seq<char>) -> bool {
    exists|i: int| 0 <= i < ts.len() && ts[i].enabled && ts[i].define == Some(d)
}

/// Some enabled tier of the ladder carries this MSVC compatibility define.
pub open spec fn spec_compat_in(ts: Seq<TierView>, d: Seq<char>) -> bool {
    exists|i: int| 0 <= i < ts.len() && ts[i].enabled && ts[i].msvc_compat_define == Some(d)
}

/// Some enabled tier of the ladder carries this POSIX flag.
pub open spec fn spec_posix_tier_flag_in(ts: Seq<TierView>, f: Seq<char>) -> bool {
    exists|i: int|
        0 <= i < ts.len() && ts[i].enabled && #[trigger] ts[i].posix_flags.contains(f)
}

/// Some enabled tier of the ladder carries this MSVC floor flag.
pub open spec fn spec_msvc_tier_flag_in(ts: Seq<TierView>, f: Seq<char>) -> bool {
    exists|i: int| 0 <= i < ts.len() && ts[i].enabled && ts[i].msvc_flag == Some(f)
}

/// The defines a ladder contributes are exactly the announcement defines of
/// its enabled tiers, plus — for the MSVC-like family only — their
/// compatibility defines.
proof fn lemma_tiers_defines_elems(ts: Seq<TierView>, msvc: bool, d: Seq<char>)
    ensures
        spec_tiers_defines(ts, msvc).contains(d) <==> (spec_announce_in(ts, d) || (msvc
            && spec_compat_in(ts, d))),
    decreases ts.len(),
{
    if ts.len() == 0 {
    } else {
        let front = ts.drop_last();
        let last = ts.last();
        lemma_tiers_defines_elems(front, msvc, d);
        lemma_add_contains(spec_tiers_defines(front, msvc), spec_tier_defines(last, msvc), d);
        let announce = (match last.define {
            Some(a) => seq![a],
            None => Seq::<Seq<char>>::empty(),
        });
        let compat = (if msvc {
            match last.msvc_compat_define {
                Some(c) => seq![c],
                None => Seq::<Seq<char>>::empty(),
            }
        } else {
            Seq::<Seq<char>>::empty()
        });
        if last.enabled {
            lemma_add_contains(announce, compat, d);
            assert(announce.contains(d) <==> last.define == Some(d)) by {
                if last.define == Some(d) {
                    assert(announce[0] == d);
                }
            }
            assert(compat.contains(d) <==> (msvc && last.msvc_compat_define == Some(d))) by {
                if msvc && last.msvc_compat_define == Some(d) {
                    assert(compat[0] == d);
                }
            }
        }
        assert(spec_announce_in(ts, d) <==> (spec_announce_in(front, d) || (last.enabled
            && last.define == Some(d)))) by {
            lemma_exists_tier_unsnoc(ts, d);
        }
        assert(spec_compat_in(ts, d) <==> (spec_compat_in(front, d) || (last.enabled
            && last.msvc_compat_define == Some(d)))) by {
            lemma_exists_tier_unsnoc(ts, d);
        }
    }
}

/// Splitting an existential over a ladder into its front and its last tier.
proof fn lemma_exists_tier_unsnoc(ts: Seq<TierView>, d: Seq<char>)
    requires
        ts.len() > 0,
    ensures
        spec_announce_in(ts, d) <==> (spec_announce_in(ts.drop_last(), d) || (ts.last().enabled
            && ts.last().define == Some(d))),
        spec_compat_in(ts, d) <==> (spec_compat_in(ts.drop_last(), d) || (ts.last().enabled
            && ts.last().msvc_compat_define == Some(d))),
        spec_msvc_tier_flag_in(ts, d) <==> (spec_msvc_tier_flag_in(ts.drop_last(), d) || (
        ts.last().enabled && ts.last().msvc_flag == Some(d))),
        spec_posix_tier_flag_in(ts, d) <==> (spec_posix_tier_flag_in(ts.drop_last(), d) || (
        ts.last().enabled && ts.last().posix_flags.contains(d))),
{
    let front = ts.drop_last();
    let n = ts.len() - 1;
    assert(forall|i: int| 0 <= i < n ==> front[i] == ts[i]);
    if spec_announce_in(ts, d) {
        let i = choose|i: int| 0 <= i < ts.len() && ts[i].enabled && ts[i].define == Some(d);
        if i < n {
            assert(front[i].enabled && front[i].define == Some(d));
        }
    }
    if spec_announce_in(front, d) {
        let i = choose|i: int| 0 <= i < front.len() && front[i].enabled && front[i].define
            == Some(d);
        assert(ts[i].enabled && ts[i].define == Some(d));
    }
    if ts.last().enabled && ts.last().define == Some(d) {
        assert(ts[n].enabled && ts[n].define == Some(d));
    }
    if spec_compat_in(ts, d) {
        let i = choose|i: int|
            0 <= i < ts.len() && ts[i].enabled && ts[i].msvc_compat_define == Some(d);
        if i < n {
            assert(front[i].enabled && front[i].msvc_compat_define == Some(d));
        }
    }
    if spec_compat_in(front, d) {
        let i = choose|i: int|
            0 <= i < front.len() && front[i].enabled && front[i].msvc_compat_define == Some(d);
        assert(ts[i].enabled && ts[i].msvc_compat_define == Some(d));
    }
    if ts.last().enabled && ts.last().msvc_compat_define == Some(d) {
        assert(ts[n].enabled && ts[n].msvc_compat_define == Some(d));
    }
    if spec_msvc_tier_flag_in(ts, d) {
        let i = choose|i: int| 0 <= i < ts.len() && ts[i].enabled && ts[i].msvc_flag == Some(d);
        if i < n {
            assert(front[i].enabled && front[i].msvc_flag == Some(d));
        }
    }
    if spec_msvc_tier_flag_in(front, d) {
        let i = choose|i: int|
            0 <= i < front.len() && front[i].enabled && front[i].msvc_flag == Some(d);
        assert(ts[i].enabled && ts[i].msvc_flag == Some(d));
    }
    if ts.last().enabled && ts.last().msvc_flag == Some(d) {
        assert(ts[n].enabled && ts[n].msvc_flag == Some(d));
    }
    if spec_posix_tier_flag_in(ts, d) {
        let i = choose|i: int|
            0 <= i < ts.len() && ts[i].enabled && #[trigger] ts[i].posix_flags.contains(d);
        if i < n {
            assert(front[i].enabled && front[i].posix_flags.contains(d));
        }
    }
    if spec_posix_tier_flag_in(front, d) {
        let i = choose|i: int|
            0 <= i < front.len() && front[i].enabled && #[trigger] front[i].posix_flags.contains(
                d,
            );
        assert(ts[i].enabled && ts[i].posix_flags.contains(d));
    }
    if ts.last().enabled && ts.last().posix_flags.contains(d) {
        assert(ts[n].enabled && ts[n].posix_flags.contains(d));
    }
}

/// The POSIX flags a ladder contributes are exactly the POSIX flags of its
/// enabled tiers.
proof fn lemma_tiers_posix_flags_elems(ts: Seq<TierView>, f: Seq<char>)
    ensures
        spec_tiers_posix_flags(ts).contains(f) <==> spec_posix_tier_flag_in(ts, f),
    decreases ts.len(),
{
    if ts.len() == 0 {
    } else {
        let front = ts.drop_last();
        let last = ts.last();
        lemma_tiers_posix_flags_elems(front, f);
        lemma_add_contains(spec_tiers_posix_flags(front), spec_tier_posix_flags(last), f);
        lemma_exists_tier_unsnoc(ts, f);
    }
}

/// The MSVC floor flag, when there is one, is the floor flag of some
/// enabled tier.
proof fn lemma_msvc_floor_elem(ts: Seq<TierView>, f: Seq<char>)
    requires
        spec_msvc_floor(ts) == Some(f),
    ensures
        spec_msvc_tier_flag_in(ts, f),
    decreases ts.len(),
{
    if ts.len() == 0 {
    } else if ts.last().enabled && ts.last().msvc_flag is Some {
        assert(ts[ts.len() - 1].enabled && ts[ts.len() - 1].msvc_flag == Some(f));
    } else {
        lemma_msvc_floor_elem(ts.drop_last(), f);
        lemma_exists_tier_unsnoc(ts, f);
    }
}

/// Architecture-tier defines are toolchain-independent: for every define
/// that is not one of the ladder's MSVC compatibility defines, the plans
/// for the two families either both contain it or both omit it.
pub proof fn lemma_defines_toolchain_independent(
    arch: Seq<char>,
    profile: Seq<char>,
    d: Seq<char>,
)
    requires
        !spec_compat_in(spec_ladder(arch), d),
    ensures
        spec_flag_set(arch, ToolchainFamily::Posix, profile).defines.contains(d)
            <==> spec_flag_set(arch, ToolchainFamily::Msvc, profile).defines.contains(d),
{
    let ts = spec_ladder(arch);
    let base = spec_base_defines(profile);
    lemma_add_contains(base, spec_tiers_defines(ts, false), d);
    lemma_add_contains(base, spec_tiers_defines(ts, true), d);
    lemma_tiers_defines_elems(ts, false, d);
    lemma_tiers_defines_elems(ts, true, d);
}

/// Every flag in a plan is drawn from the matching family's tables alone:
/// the family's tier flags of the architecture's ladder, or the family's
/// hardening set.
pub proof fn lemma_flags_from_family_tables(
    arch: Seq<char>,
    family: ToolchainFamily,
    profile: Seq<char>,
    f: Seq<char>,
)
    requires
        spec_flag_set(arch, family, profile).flags.contains(f),
    ensures
        family is Posix ==> spec_posix_tier_flag_in(spec_ladder(arch), f)
            || spec_posix_hardening().contains(f),
        family is Msvc ==> spec_msvc_tier_flag_in(spec_ladder(arch), f)
            || spec_msvc_hardening().contains(f),
{
    let ts = spec_ladder(arch);
    lemma_add_contains(spec_arch_flags(ts, family), spec_hardening(family), f);
    if spec_arch_flags(ts, family).contains(f) {
        if family is Msvc {
            let floor = spec_msvc_floor(ts);
            match floor {
                Some(g) => {
                    assert(seq![g].contains(f) ==> g == f);
                    lemma_msvc_floor_elem(ts, g);
                },
                None => {},
            }
        } else {
            lemma_tiers_posix_flags_elems(ts, f);
        }
    }
}

/// An architecture absent from the ladder table gets the baseline plan: no
/// architecture-specific defines or flags at all — only the base defines
/// and the family's hardening set.
pub proof fn lemma_unlisted_arch_baseline(
    arch: Seq<char>,
    family: ToolchainFamily,
    profile: Seq<char>,
)
    requires
        !spec_arch_listed(arch),
    ensures
        spec_flag_set(arch, family, profile).defines == spec_base_defines(profile),
        spec_flag_set(arch, family, profile).flags == spec_hardening(family),
{
    let ts = spec_ladder(arch);
    assert(ts =~= Seq::<TierView>::empty());
    assert(spec_base_defines(profile) + spec_tiers_defines(ts, family is Msvc) =~= spec_base_defines(
        profile,
    ));
    assert(spec_arch_flags(ts, family) + spec_hardening(family) =~= spec_hardening(family));
}

/// An administratively disabled tier contributes exactly nothing: removing
/// it from the table changes no defines, no POSIX flags and no MSVC floor —
/// the ordering and contributions of the other tiers are untouched. This is
/// the guarantee behind withholding the widest tier by policy.
pub proof fn lemma_disabled_tier_contributes_nothing(ts: Seq<TierView>, k: int, msvc: bool)
    requires
        0 <= k < ts.len(),
        !ts[k].enabled,
    ensures
        spec_tiers_defines(ts, msvc) == spec_tiers_defines(ts.remove(k), msvc),
        spec_tiers_posix_flags(ts) == spec_tiers_posix_flags(ts.remove(k)),
        spec_msvc_floor(ts) == spec_msvc_floor(ts.remove(k)),
    decreases ts.len(),
{
    if k == ts.len() - 1 {
        assert(ts.remove(k) =~= ts.drop_last());
        assert(spec_tiers_defines(ts.drop_last(), msvc) + spec_tier_defines(ts.last(), msvc)
            =~= spec_tiers_defines(ts.drop_last(), msvc));
        assert(spec_tiers_posix_flags(ts.drop_last()) + spec_tier_posix_flags(ts.last())
            =~= spec_tiers_posix_flags(ts.drop_last()));
    } else {
        let front = ts.drop_last();
        lemma_disabled_tier_contributes_nothing(front, k, msvc);
        assert(ts.remove(k).drop_last() =~= front.remove(k));
        assert(ts.remove(k).last() == ts.last());
    }
}

/// Every announcement define in a ladder starts with the engine's build
/// prefix letter, and every compatibility define with an underscore.
#[verifier::rlimit(50)]
proof fn lemma_ladder_defines_shape(arch: Seq<char>, d: Seq<char>)
    ensures
        spec_announce_in(spec_ladder(arch), d) ==> d.len() >= 1 && d[0] == 'B',
        spec_compat_in(spec_ladder(arch), d) ==> d.len() >= 1 && d[0] == '_',
{
    reveal_strlit("BL_BUILD_OPT_SSE2");
    reveal_strlit("BL_BUILD_OPT_SSE3");
    reveal_strlit("BL_BUILD_OPT_SSSE3");
    reveal_strlit("BL_BUILD_OPT_SSE4_1");
    reveal_strlit("BL_BUILD_OPT_SSE4_2");
    reveal_strlit("BL_BUILD_OPT_AVX");
    reveal_strlit("BL_BUILD_OPT_AVX2");
    reveal_strlit("BL_BUILD_OPT_AVX512");
    reveal_strlit("__SSE3__");
    reveal_strlit("__SSSE3__");
    reveal_strlit("__SSE4_1__");
    reveal_strlit("__ARM_NEON__");
    let ts = spec_ladder(arch);
    if spec_announce_in(ts, d) {
        let i = choose|i: int| 0 <= i < ts.len() && ts[i].enabled && ts[i].define == Some(d);
        assert(d.len() >= 1 && d[0] == 'B');
    }
    if spec_compat_in(ts, d) {
        let i = choose|i: int|
            0 <= i < ts.len() && ts[i].enabled && ts[i].msvc_compat_define == Some(d);
        assert(d.len() >= 1 && d[0] == '_');
    }
}

/// Every POSIX tier flag in a ladder is a dash-m machine flag, and every
/// MSVC tier flag a slash-style instruction-set floor.
#[verifier::rlimit(50)]
proof fn lemma_ladder_flags_shape(arch: Seq<char>, f: Seq<char>)
    ensures
        spec_posix_tier_flag_in(spec_ladder(arch), f) ==> f.len() >= 2 && f[0] == '-' && f[1]
            == 'm',
        spec_msvc_tier_flag_in(spec_ladder(arch), f) ==> f.len() >= 1 && f[0] == '/',
{
    reveal_strlit("-msse2");
    reveal_strlit("-msse3");
    reveal_strlit("-mssse3");
    reveal_strlit("-msse4.1");
    reveal_strlit("-mpopcnt");
    reveal_strlit("-mpclmul");
    reveal_strlit("-msse4.2");
    reveal_strlit("-mavx");
    reveal_strlit("-mbmi");
    reveal_strlit("-mbmi2");
    reveal_strlit("-mavx2");
    reveal_strlit("-mavx512f");
    reveal_strlit("-mavx512bw");
    reveal_strlit("-mavx512dq");
    reveal_strlit("-mavx512cd");
    reveal_strlit("-mavx512vl");
    reveal_strlit("-march=armv8-a+crc+simd");
    reveal_strlit("-mfpu=neon");
    reveal_strlit("/arch:SSE2");
    reveal_strlit("/arch:SSE4.2");
    reveal_strlit("/arch:AVX");
    reveal_strlit("/arch:AVX2");
    reveal_strlit("/arch:AVX512");
    let ts = spec_ladder(arch);
    if spec_posix_tier_flag_in(ts, f) {
        let i = choose|i: int|
            0 <= i < ts.len() && ts[i].enabled && #[trigger] ts[i].posix_flags.contains(f);
        let j = choose|j: int| 0 <= j < ts[i].posix_flags.len() && ts[i].posix_flags[j] == f;
        assert(f.len() >= 2 && f[0] == '-' && f[1] == 'm');
    }
    if spec_msvc_tier_flag_in(ts, f) {
        let i = choose|i: int| 0 <= i < ts.len() && ts[i].enabled && ts[i].msvc_flag == Some(f);
        assert(f.len() >= 1 && f[0] == '/');
    }
}

/// Every POSIX hardening flag is a dash-f flag.
#[verifier::rlimit(50)]
proof fn lemma_posix_hardening_shape(f: Seq<char>)
    ensures
        spec_posix_hardening().contains(f) ==> f.len() >= 2 && f[0] == '-' && f[1] == 'f',
{
    reveal_strlit("-fvisibility=hidden");
    reveal_strlit("-fno-exceptions");
    reveal_strlit("-fno-rtti");
    reveal_strlit("-fno-math-errno");
    reveal_strlit("-fno-semantic-interposition");
    reveal_strlit("-fno-threadsafe-statics");
    reveal_strlit("-fmerge-all-constants");
    reveal_strlit("-ftree-vectorize");
    if spec_posix_hardening().contains(f) {
        let i = choose|i: int|
            0 <= i < spec_posix_hardening().len() && spec_posix_hardening()[i] == f;
        assert(f.len() >= 2 && f[0] == '-' && f[1] == 'f');
    }
}

/// Every MSVC hardening flag is a dash flag whose second character is one
/// of the MSVC option group letters.
#[verifier::rlimit(50)]
proof fn lemma_msvc_hardening_shape(f: Seq<char>)
    ensures
        spec_msvc_hardening().contains(f) ==> f.len() >= 2 && f[0] == '-' && (f[1] == 'M' || f[1]
            == 'G' || f[1] == 'Z'),
{
    reveal_strlit("-MP");
    reveal_strlit("-GR-");
    reveal_strlit("-GF");
    reveal_strlit("-Zc:__cplusplus");
    reveal_strlit("-Zc:inline");
    reveal_strlit("-Zc:strictStrings");
    reveal_strlit("-Zc:threadSafeInit-");
    if spec_msvc_hardening().contains(f) {
        let i = choose|i: int|
            0 <= i < spec_msvc_hardening().len() && spec_msvc_hardening()[i] == f;
        assert(f.len() >= 2 && f[0] == '-' && (f[1] == 'M' || f[1] == 'G' || f[1] == 'Z'));
    }
}

/// The POSIX and MSVC hardening flag sets are disjoint: no flag belongs to
/// both.
pub proof fn lemma_hardening_sets_disjoint(f: Seq<char>)
    ensures
        !(spec_posix_hardening().contains(f) && spec_msvc_hardening().contains(f)),
{
    lemma_posix_hardening_shape(f);
    lemma_msvc_hardening_shape(f);
}

/// No plan ever mixes the families: a POSIX plan contains no MSVC hardening
/// flag, and an MSVC plan contains no POSIX hardening flag, whatever the
/// architecture and profile.
pub proof fn lemma_plan_never_mixes_families(
    arch: Seq<char>,
    family: ToolchainFamily,
    profile: Seq<char>,
    f: Seq<char>,
)
    requires
        spec_flag_set(arch, family, profile).flags.contains(f),
    ensures
        family is Posix ==> !spec_msvc_hardening().contains(f),
        family is Msvc ==> !spec_posix_hardening().contains(f),
{
    lemma_flags_from_family_tables(arch, family, profile, f);
    lemma_ladder_flags_shape(arch, f);
    lemma_posix_hardening_shape(f);
    lemma_msvc_hardening_shape(f);
}

/// The production define is in a plan's defines exactly when the build
/// profile is not the debug profile — independently of the architecture and
/// the toolchain family.
pub proof fn lemma_production_define_iff(
    arch: Seq<char>,
    family: ToolchainFamily,
    profile: Seq<char>,
)
    ensures
        spec_flag_set(arch, family, profile).defines.contains(spec_production_define()) <==> (
        profile != spec_debug_profile()),
{
    reveal_strlit("NDEBUG");
    reveal_strlit("ASMJIT_STATIC");
    let nd = spec_production_define();
    let ts = spec_ladder(arch);
    let msvc = family is Msvc;
    let base = spec_base_defines(profile);
    lemma_add_contains(base, spec_tiers_defines(ts, msvc), nd);
    lemma_tiers_defines_elems(ts, msvc, nd);
    lemma_ladder_defines_shape(arch, nd);
    assert(nd[0] == 'N');
    if profile != spec_debug_profile() {
        assert(base[1] == nd);
    } else {
        if base.contains(nd) {
            let i = choose|i: int| 0 <= i < base.len() && base[i] == nd;
            assert(base[0] == "ASMJIT_STATIC"@);
            assert(("ASMJIT_STATIC"@)[0] == 'A');
        }
    }
}

} // verus!
