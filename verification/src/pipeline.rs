//! The full planning pipeline.
//!
//! Captures the per-build decisions that do not touch the filesystem: the
//! complete flag set for the target and profile, the system-library link
//! list for the target operating system, and the fixed artifact name. The
//! plan is a pure function of its four inputs — planning twice with the
//! same (architecture, operating system, profile, toolchain family) gives
//! identical contents.

use vstd::prelude::*;

use crate::ladder::views_of;
use crate::linker::link_libraries;
use crate::linker::spec_link_libraries;
use crate::planner::FlagSet;
use crate::planner::FlagSetView;
use crate::planner::plan_flags;
use crate::planner::spec_flag_set;
use crate::toolchain::ToolchainFamily;

verus! {

/// The name of the one static-library artifact a build produces.
pub open spec fn spec_artifact_name() -> Seq<char> {
    "blend2d"@
}

/// Everything one build derives from its captured configuration: the flag
/// set to compile under, the system libraries to link, and the artifact
/// name.
pub struct BuildPlan {
    /// The complete flag set for the compilation step.
    pub flag_set: FlagSet,
    /// The ordered system-library link list for the target OS.
    pub link_libraries: Vec<&'static str>,
    /// The fixed name of the static-library artifact.
    pub artifact_name: &'static str,
}

/// Plans one build from the configuration captured at build start. The
/// result is determined by the four inputs alone.
pub fn plan_build(arch: &str, os: &str, profile: &str, family: ToolchainFamily) -> (plan:
    BuildPlan)
    ensures
        plan.flag_set@ == spec_flag_set(arch@, family, profile@),
        views_of(plan.link_libraries@) == spec_link_libraries(os@),
        plan.artifact_name@ == spec_artifact_name(),
{
    BuildPlan {
        flag_set: plan_flags(arch, family, profile),
        link_libraries: link_libraries(os),
        artifact_name: "blend2d",
    }
}

/// Determinism of planning: the planner's contract pins the flag set to a
/// function of (architecture, toolchain family, profile), so any two flag
/// sets planned from identical inputs have identical contents.
pub proof fn lemma_plan_deterministic(
    fs1: FlagSetView,
    fs2: FlagSetView,
    arch: Seq<char>,
    family: ToolchainFamily,
    profile: Seq<char>,
)
    requires
        fs1 == spec_flag_set(arch, family, profile),
        fs2 == spec_flag_set(arch, family, profile),
    ensures
        fs1 == fs2,
{
}

} // verus!
