//! Verified core of a native-library build orchestrator.
//!
//! Given a target triple (architecture, operating system, toolchain family)
//! and a build profile, this crate derives the deterministic set of compiler
//! flags and preprocessor defines for building the bundled 2D engine and its
//! assembler dependency as one static library: a tiered SIMD feature ladder
//! per architecture, family-exclusive hardening flags, a production define
//! keyed on the build profile, and the ordered system-library link list per
//! operating system. It also selects the compiled-language sources from a
//! directory listing, records the whole plan in the compiler driver, and
//! states the binding-generation request made against the engine's public
//! header.

pub mod bindings;
pub mod ccbuild;
pub mod discovery;
pub mod error;
pub mod ladder;
pub mod laws;
pub mod linker;
pub mod pipeline;
pub mod planner;
pub mod strutil;
pub mod toolchain;

pub use error::Error;
pub use error::err_to_result;
pub use error::error_from_errcode;
pub use pipeline::BuildPlan;
pub use pipeline::plan_build;
pub use planner::FlagSet;
pub use planner::plan_flags;
pub use toolchain::ToolchainFamily;
