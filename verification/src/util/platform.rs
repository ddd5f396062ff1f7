//! How each operating system names a dynamic library.
//!
//! The operating system is given by its name as Rust spells it (`macos`,
//! `linux`, `windows`, ...); any other system is treated like Linux.

use vstd::prelude::*;

use crate::util::text::{joined, same_text};

verus! {

/// The file extension of a dynamic library on `target_os`.
pub open spec fn spec_lib_extension(target_os: Seq<char>) -> Seq<char> {
    if target_os == "macos"@ {
        "dylib"@
    } else if target_os == "windows"@ {
        "dll"@
    } else {
        "so"@
    }
}

/// The file name of the dynamic library `base_name` on `target_os`: with the
/// `lib` prefix everywhere but on Windows.
pub open spec fn spec_lib_filename(target_os: Seq<char>, base_name: Seq<char>) -> Seq<char> {
    if target_os == "windows"@ {
        base_name + "."@ + spec_lib_extension(target_os)
    } else {
        "lib"@ + base_name + "."@ + spec_lib_extension(target_os)
    }
}

/// The file extension of a dynamic library on `target_os`: `dylib` on macOS,
/// `dll` on Windows, `so` on Linux and elsewhere.
pub fn dynamic_lib_extension(target_os: &str) -> (ext: &'static str)
    ensures
        ext@ == spec_lib_extension(target_os@),
{
    if same_text(target_os, "macos") {
        "dylib"
    } else if same_text(target_os, "windows") {
        "dll"
    } else {
        "so"
    }
}

/// The file name of the dynamic library `base_name` on `target_os`, such as
/// `librust_search.so`, `librust_search.dylib` or `rust_search.dll`.
pub fn dynamic_lib_filename(target_os: &str, base_name: &str) -> (name: String)
    ensures
        name@ == spec_lib_filename(target_os@, base_name@),
{
    let ext = dynamic_lib_extension(target_os);
    let stem = if same_text(target_os, "windows") {
        joined(base_name, ".")
    } else {
        let s = joined("lib", base_name);
        joined(s.as_str(), ".")
    };
    joined(stem.as_str(), ext)
}

} // verus!
