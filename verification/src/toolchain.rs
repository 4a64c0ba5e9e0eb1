//! Toolchain capability classification.
//!
//! Every flag decision in the planner branches on exactly one question: is
//! the active compiler MSVC-like or POSIX/GNU-like? The classification is
//! made once per build, from the compiler that the invoking environment
//! resolved, and threaded explicitly through the planner.

use vstd::prelude::*;

verus! {

/// The two compiler capability families. All flag emission is gated on this
/// value: no flag may be chosen without consulting it.
#[derive(Copy, Clone, Debug, PartialEq, Eq, Structural)]
pub enum ToolchainFamily {
    /// POSIX/GNU-like compilers (gcc, clang): dash-style flags that compose
    /// additively across SIMD tiers.
    Posix,
    /// MSVC-like compilers: `/arch:` flags that select an instruction-set
    /// floor rather than stacking.
    Msvc,
}

impl ToolchainFamily {
    /// True when the family is the MSVC-like one.
    pub fn is_msvc(&self) -> (r: bool)
        ensures
            r == (*self is Msvc),
    {
        match self {
            ToolchainFamily::Msvc => true,
            ToolchainFamily::Posix => false,
        }
    }
}

/// Classifies a resolved compiler into its capability family, from the one
/// observation that matters: whether it behaves like MSVC.
pub fn family_of(is_msvc_like: bool) -> (f: ToolchainFamily)
    ensures
        f == (if is_msvc_like {
            ToolchainFamily::Msvc
        } else {
            ToolchainFamily::Posix
        }),
{
    if is_msvc_like {
        ToolchainFamily::Msvc
    } else {
        ToolchainFamily::Posix
    }
}

/// The toolchain family could not be determined: the build cannot proceed,
/// since every flag decision depends on it.
#[derive(Copy, Clone, Debug)]
pub struct ToolchainError;

/// Relies on cc::Build::try_get_compiler and cc::Tool::is_like_msvc:
/// resolves the compiler for the given configuration from the invoking
/// environment and reports whether it behaves like MSVC. The outcome
/// depends on that environment, so nothing is promised of it; resolution
/// failure is reported as an error, never a panic.
#[verifier::external_body]
fn compiler_is_msvc_like(b: &cc::Build) -> (r: Result<bool, ToolchainError>)
{
    match b.try_get_compiler() {
        Ok(tool) => Ok(tool.is_like_msvc()),
        Err(_) => Err(ToolchainError),
    }
}

/// Detects the capability family of the compiler the environment resolved
/// for this build configuration. The outcome depends on the environment;
/// whatever compiler came back, it is classified into exactly one of the
/// two families, and a resolution failure is fatal for the caller.
pub fn detect_family(b: &cc::Build) -> (r: Result<ToolchainFamily, ToolchainError>) {
    match compiler_is_msvc_like(b) {
        Ok(m) => Ok(family_of(m)),
        Err(e) => Err(e),
    }
}

} // verus!
