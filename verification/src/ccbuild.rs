//! Applying a plan to the compiler driver.
//!
//! The compilation step is driven through `cc::Build`, a builder that
//! records definitions, flags, probe-first flags, include paths and source
//! files and later invokes the compiler. The builder's recorded lists are
//! modelled here by uninterpreted content functions; one trusted wrapper per
//! builder method states, against the crate's source, how the call extends
//! one list and leaves the others unchanged. The verified functions below
//! carry a whole `FlagSet` and source list into the builder in order.

use vstd::prelude::*;

use crate::planner::FlagSet;

verus! {

/// Declares cc::Build, the compiler driver's configuration builder, as an
/// opaque outside type; its recorded lists are spoken of only through the
/// content functions below.
#[verifier::external_type_specification]
#[verifier::external_body]
pub struct ExBuild(cc::Build);

/// The names of the `-D` definitions recorded in the builder, in call
/// order.
pub uninterp spec fn build_defines(b: cc::Build) -> Seq<Seq<char>>;

/// The compiler flags recorded in the builder, in call order.
pub uninterp spec fn build_flags(b: cc::Build) -> Seq<Seq<char>>;

/// The probe-first flags recorded in the builder, in call order: each is
/// passed only if the compiler supports it.
pub uninterp spec fn build_tentative_flags(b: cc::Build) -> Seq<Seq<char>>;

/// The include paths recorded in the builder, in call order.
pub uninterp spec fn build_include_paths(b: cc::Build) -> Seq<Seq<char>>;

/// The source files recorded in the builder, in call order.
pub uninterp spec fn build_files(b: cc::Build) -> Seq<Seq<char>>;

/// Relies on cc::Build::define: pushes the named definition (with no value)
/// onto the builder's definition list and touches nothing else.
#[verifier::external_body]
fn build_define(b: &mut cc::Build, name: &str)
    ensures
        build_defines(*final(b)) == build_defines(*old(b)).push(name@),
        build_flags(*final(b)) == build_flags(*old(b)),
        build_tentative_flags(*final(b)) == build_tentative_flags(*old(b)),
        build_include_paths(*final(b)) == build_include_paths(*old(b)),
        build_files(*final(b)) == build_files(*old(b)),
{
    b.define(name, None);
}

/// Relies on cc::Build::flag: pushes the flag onto the builder's flag list
/// and touches nothing else.
#[verifier::external_body]
fn build_flag(b: &mut cc::Build, flag: &str)
    ensures
        build_flags(*final(b)) == build_flags(*old(b)).push(flag@),
        build_defines(*final(b)) == build_defines(*old(b)),
        build_tentative_flags(*final(b)) == build_tentative_flags(*old(b)),
        build_include_paths(*final(b)) == build_include_paths(*old(b)),
        build_files(*final(b)) == build_files(*old(b)),
{
    b.flag(flag);
}

/// Relies on cc::Build::flag_if_supported: pushes the flag onto the
/// builder's probe-first list and touches nothing else.
#[verifier::external_body]
fn build_flag_if_supported(b: &mut cc::Build, flag: &str)
    ensures
        build_tentative_flags(*final(b)) == build_tentative_flags(*old(b)).push(flag@),
        build_defines(*final(b)) == build_defines(*old(b)),
        build_flags(*final(b)) == build_flags(*old(b)),
        build_include_paths(*final(b)) == build_include_paths(*old(b)),
        build_files(*final(b)) == build_files(*old(b)),
{
    b.flag_if_supported(flag);
}

/// Relies on cc::Build::includes, called with one directory: pushes that
/// directory onto the builder's include-path list and touches nothing else.
#[verifier::external_body]
fn build_include_path(b: &mut cc::Build, dir: &str)
    ensures
        build_include_paths(*final(b)) == build_include_paths(*old(b)).push(dir@),
        build_defines(*final(b)) == build_defines(*old(b)),
        build_flags(*final(b)) == build_flags(*old(b)),
        build_tentative_flags(*final(b)) == build_tentative_flags(*old(b)),
        build_files(*final(b)) == build_files(*old(b)),
{
    b.includes([dir]);
}

/// Relies on cc::Build::file: pushes the path onto the builder's source
/// list and touches nothing else.
#[verifier::external_body]
fn build_file(b: &mut cc::Build, path: &str)
    ensures
        build_files(*final(b)) == build_files(*old(b)).push(path@),
        build_defines(*final(b)) == build_defines(*old(b)),
        build_flags(*final(b)) == build_flags(*old(b)),
        build_tentative_flags(*final(b)) == build_tentative_flags(*old(b)),
        build_include_paths(*final(b)) == build_include_paths(*old(b)),
{
    b.file(path);
}

/// Records a planned flag set in the builder: every define, flag,
/// probe-first flag and include path, each list appended in plan order, and
/// no source file touched.
pub fn apply_flag_set(b: &mut cc::Build, fs: &FlagSet)
    ensures
        build_defines(*final(b)) == build_defines(*old(b)) + fs@.defines,
        build_flags(*final(b)) == build_flags(*old(b)) + fs@.flags,
        build_tentative_flags(*final(b)) == build_tentative_flags(*old(b)) + fs@.tentative_flags,
        build_include_paths(*final(b)) == build_include_paths(*old(b)) + fs@.includes,
        build_files(*final(b)) == build_files(*old(b)),
{
    let ghost defines0 = build_defines(*b);
    let ghost flags0 = build_flags(*b);
    let ghost tentative0 = build_tentative_flags(*b);
    let ghost paths0 = build_include_paths(*b);
    let ghost files0 = build_files(*b);

    let mut i: usize = 0;
    while i < fs.defines.len()
        invariant
            i <= fs.defines.len(),
            build_defines(*b) == defines0 + fs@.defines.take(i as int),
            build_flags(*b) == flags0,
            build_tentative_flags(*b) == tentative0,
            build_include_paths(*b) == paths0,
            build_files(*b) == files0,
        decreases fs.defines.len() - i,
    {
        let ghost before = build_defines(*b);
        build_define(b, fs.defines[i]);
        proof {
            assert(fs@.defines[i as int] == fs.defines@[i as int]@);
            assert(fs@.defines.take(i + 1) =~= fs@.defines.take(i as int).push(
                fs@.defines[i as int],
            ));
            assert(build_defines(*b) =~= defines0 + fs@.defines.take(i + 1));
        }
        i += 1;
    }
    proof {
        assert(fs@.defines.take(fs.defines@.len() as int) =~= fs@.defines);
    }

    let mut i: usize = 0;
    while i < fs.flags.len()
        invariant
            i <= fs.flags.len(),
            build_defines(*b) == defines0 + fs@.defines,
            build_flags(*b) == flags0 + fs@.flags.take(i as int),
            build_tentative_flags(*b) == tentative0,
            build_include_paths(*b) == paths0,
            build_files(*b) == files0,
        decreases fs.flags.len() - i,
    {
        build_flag(b, fs.flags[i]);
        proof {
            assert(fs@.flags[i as int] == fs.flags@[i as int]@);
            assert(fs@.flags.take(i + 1) =~= fs@.flags.take(i as int).push(fs@.flags[i as int]));
            assert(build_flags(*b) =~= flags0 + fs@.flags.take(i + 1));
        }
        i += 1;
    }
    proof {
        assert(fs@.flags.take(fs.flags@.len() as int) =~= fs@.flags);
    }

    let mut i: usize = 0;
    while i < fs.tentative_flags.len()
        invariant
            i <= fs.tentative_flags.len(),
            build_defines(*b) == defines0 + fs@.defines,
            build_flags(*b) == flags0 + fs@.flags,
            build_tentative_flags(*b) == tentative0 + fs@.tentative_flags.take(i as int),
            build_include_paths(*b) == paths0,
            build_files(*b) == files0,
        decreases fs.tentative_flags.len() - i,
    {
        build_flag_if_supported(b, fs.tentative_flags[i]);
        proof {
            assert(fs@.tentative_flags[i as int] == fs.tentative_flags@[i as int]@);
            assert(fs@.tentative_flags.take(i + 1) =~= fs@.tentative_flags.take(i as int).push(
                fs@.tentative_flags[i as int],
            ));
            assert(build_tentative_flags(*b) =~= tentative0 + fs@.tentative_flags.take(i + 1));
        }
        i += 1;
    }
    proof {
        assert(fs@.tentative_flags.take(fs.tentative_flags@.len() as int) =~= fs@.tentative_flags);
    }

    let mut i: usize = 0;
    while i < fs.includes.len()
        invariant
            i <= fs.includes.len(),
            build_defines(*b) == defines0 + fs@.defines,
            build_flags(*b) == flags0 + fs@.flags,
            build_tentative_flags(*b) == tentative0 + fs@.tentative_flags,
            build_include_paths(*b) == paths0 + fs@.includes.take(i as int),
            build_files(*b) == files0,
        decreases fs.includes.len() - i,
    {
        build_include_path(b, fs.includes[i]);
        proof {
            assert(fs@.includes[i as int] == fs.includes@[i as int]@);
            assert(fs@.includes.take(i + 1) =~= fs@.includes.take(i as int).push(
                fs@.includes[i as int],
            ));
            assert(build_include_paths(*b) =~= paths0 + fs@.includes.take(i + 1));
        }
        i += 1;
    }
    proof {
        assert(fs@.includes.take(fs.includes@.len() as int) =~= fs@.includes);
    }
}

/// Records the discovered source files in the builder, in order, touching
/// nothing else.
pub fn add_sources(b: &mut cc::Build, sources: &Vec<String>)
    ensures
        build_files(*final(b)) == build_files(*old(b)) + sources.deep_view(),
        build_defines(*final(b)) == build_defines(*old(b)),
        build_flags(*final(b)) == build_flags(*old(b)),
        build_tentative_flags(*final(b)) == build_tentative_flags(*old(b)),
        build_include_paths(*final(b)) == build_include_paths(*old(b)),
{
    let ghost files0 = build_files(*b);
    let ghost defines0 = build_defines(*b);
    let ghost flags0 = build_flags(*b);
    let ghost tentative0 = build_tentative_flags(*b);
    let ghost paths0 = build_include_paths(*b);
    let ghost all = sources.deep_view();

    let mut i: usize = 0;
    while i < sources.len()
        invariant
            i <= sources.len(),
            all == sources.deep_view(),
            all.len() == sources@.len(),
            forall|j: int| 0 <= j < sources@.len() ==> all[j] == sources@[j]@,
            build_files(*b) == files0 + all.take(i as int),
            build_defines(*b) == defines0,
            build_flags(*b) == flags0,
            build_tentative_flags(*b) == tentative0,
            build_include_paths(*b) == paths0,
        decreases sources.len() - i,
    {
        build_file(b, sources[i].as_str());
        proof {
            assert(all.take(i + 1) =~= all.take(i as int).push(all[i as int]));
            assert(build_files(*b) =~= files0 + all.take(i + 1));
        }
        i += 1;
    }
    proof {
        assert(all.take(sources@.len() as int) =~= all);
    }
}

/// Records one whole planned build in the builder: the flag set and then
/// the source files.
pub fn configure_build(b: &mut cc::Build, fs: &FlagSet, sources: &Vec<String>)
    ensures
        build_defines(*final(b)) == build_defines(*old(b)) + fs@.defines,
        build_flags(*final(b)) == build_flags(*old(b)) + fs@.flags,
        build_tentative_flags(*final(b)) == build_tentative_flags(*old(b)) + fs@.tentative_flags,
        build_include_paths(*final(b)) == build_include_paths(*old(b)) + fs@.includes,
        build_files(*final(b)) == build_files(*old(b)) + sources.deep_view(),
{
    apply_flag_set(b, fs);
    add_sources(b, sources);
}

} // verus!
