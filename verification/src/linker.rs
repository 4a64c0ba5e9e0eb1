//! The platform linker table.
//!
//! Maps a target operating-system identifier to the ordered list of system
//! libraries that the produced static library needs at link time. The
//! mapping is total over a small recognized set; any other identifier gets
//! the empty list — an explicit escape hatch for unsupported-but-buildable
//! platforms, not an error.

use vstd::prelude::*;

use crate::ladder::views_of;
use crate::strutil::str_eq;

verus! {

/// An operating-system identifier with a fixed link list in the table.
pub open spec fn spec_os_recognized(os: Seq<char>) -> bool {
    os == "windows"@ || os == "linux"@ || os == "macos"@
}

/// The ordered system-library link list for a target operating system:
/// windowing/UUID/shell libraries on Windows; C runtime, math, threading
/// and real-time libraries on Linux; C runtime, math and threading
/// libraries on macOS; nothing anywhere else.
pub open spec fn spec_link_libraries(os: Seq<char>) -> Seq<Seq<char>> {
    if os == "windows"@ {
        seq!["user32"@, "uuid"@, "shell32"@]
    } else if os == "linux"@ {
        seq!["c"@, "m"@, "pthread"@, "rt"@]
    } else if os == "macos"@ {
        seq!["c"@, "m"@, "pthread"@]
    } else {
        Seq::<Seq<char>>::empty()
    }
}

/// Returns the ordered system-library link list for a target operating
/// system; unrecognized identifiers get the empty list.
pub fn link_libraries(os: &str) -> (libs: Vec<&'static str>)
    ensures
        views_of(libs@) == spec_link_libraries(os@),
{
    if str_eq(os, "windows") {
        let libs: Vec<&'static str> = vec!["user32", "uuid", "shell32"];
        proof {
            assert(views_of(libs@) =~= spec_link_libraries(os@));
        }
        libs
    } else if str_eq(os, "linux") {
        let libs: Vec<&'static str> = vec!["c", "m", "pthread", "rt"];
        proof {
            assert(views_of(libs@) =~= spec_link_libraries(os@));
        }
        libs
    } else if str_eq(os, "macos") {
        let libs: Vec<&'static str> = vec!["c", "m", "pthread"];
        proof {
            assert(views_of(libs@) =~= spec_link_libraries(os@));
        }
        libs
    } else {
        let libs: Vec<&'static str> = Vec::new();
        proof {
            assert(views_of(libs@) =~= spec_link_libraries(os@));
        }
        libs
    }
}

/// The link table yields a non-empty, fixed list exactly for the recognized
/// operating systems, and the empty list for every other identifier.
pub proof fn lemma_link_table_total(os: Seq<char>)
    ensures
        spec_os_recognized(os) ==> spec_link_libraries(os).len() > 0,
        !spec_os_recognized(os) ==> spec_link_libraries(os) == Seq::<Seq<char>>::empty(),
{
}

} // verus!
