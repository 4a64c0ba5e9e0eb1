//! The binding-generation request and its allow-list policy.
//!
//! Binding generation itself is an external capability with a narrow
//! contract: given a public header and an allow-list pattern it produces one
//! generated binding source, failing fatally if the header does not parse
//! under the declared defines. This module owns the request value — the
//! header path, the allow-list pattern, the defines the header is parsed
//! under, and the enum representation policy — and the meaning of the
//! allow-list: a case-insensitive match on the engine's two-letter symbol
//! prefix.

use vstd::prelude::*;
use vstd::string::StrSliceExecFns;

verus! {

/// One binding-generation request: a value object handed to the generator,
/// not owned by the compilation pipeline.
pub struct BindingRequest {
    /// The single public header aggregating the engine's surface.
    pub header: &'static str,
    /// The symbol allow-list pattern, matching the engine's prefix in any
    /// letter case.
    pub allowlist_pattern: &'static str,
    /// Defines the header is parsed under: the assembler dependency is
    /// declared in static-linkage mode.
    pub parse_defines: Vec<&'static str>,
    /// Represent each source enum as a bit-field-capable wrapped integer
    /// type, tolerating undeclared bit combinations.
    pub bitfield_enums: bool,
}

/// A symbol name the allow-list pattern selects: at least the two-letter
/// engine prefix, each letter in either case, with anything after it.
pub open spec fn spec_matches_allowlist(sym: Seq<char>) -> bool {
    &&& sym.len() >= 2
    &&& (sym[0] == 'B' || sym[0] == 'b')
    &&& (sym[1] == 'L' || sym[1] == 'l')
}

/// Decides whether a symbol name is selected by the allow-list pattern.
pub fn matches_allowlist(symbol: &str) -> (r: bool)
    ensures
        r == spec_matches_allowlist(symbol@),
{
    let n = symbol.unicode_len();
    if n < 2 {
        return false;
    }
    let c0 = symbol.get_char(0);
    let c1 = symbol.get_char(1);
    (c0 == 'B' || c0 == 'b') && (c1 == 'L' || c1 == 'l')
}

/// Builds the one binding request this build makes: the engine's public
/// header, the engine-prefix allow-list, static-linkage parsing of the
/// assembler dependency, and bit-field-capable enum wrappers.
pub fn binding_request() -> (r: BindingRequest)
    ensures
        r.header@ == "blend2d/src/blend2d.h"@,
        r.allowlist_pattern@ == "[Bb][Ll].*"@,
        r.parse_defines.deep_view() == seq!["ASMJIT_STATIC"@],
        r.bitfield_enums,
{
    let parse_defines: Vec<&'static str> = vec!["ASMJIT_STATIC"];
    proof {
        assert(parse_defines.deep_view() =~= seq!["ASMJIT_STATIC"@]);
    }
    BindingRequest {
        header: "blend2d/src/blend2d.h",
        allowlist_pattern: "[Bb][Ll].*",
        parse_defines,
        bitfield_enums: true,
    }
}

} // verus!
