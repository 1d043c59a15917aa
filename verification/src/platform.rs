use vstd::prelude::*;

use crate::strutil::str_eq;

verus! {

/// The OS name as the download URLs spell it: `macos` becomes `darwin`,
/// every other name passes through.
pub open spec fn spec_normalize_os(s: Seq<char>) -> Seq<char> {
    if s == "macos"@ {
        "darwin"@
    } else {
        s
    }
}

/// The architecture name as the download URLs spell it: `x86` becomes
/// `i386`, `x86_64` becomes `amd64`, every other name passes through.
pub open spec fn spec_normalize_arch(s: Seq<char>) -> Seq<char> {
    if s == "x86"@ {
        "i386"@
    } else if s == "x86_64"@ {
        "amd64"@
    } else {
        s
    }
}

pub fn normalize_os(os: &str) -> (r: String)
    ensures
        r@ == spec_normalize_os(os@),
{
    if str_eq(os, "macos") {
        String::from_str("darwin")
    } else {
        String::from_str(os)
    }
}

pub fn normalize_arch(arch: &str) -> (r: String)
    ensures
        r@ == spec_normalize_arch(arch@),
{
    if str_eq(arch, "x86") {
        String::from_str("i386")
    } else if str_eq(arch, "x86_64") {
        String::from_str("amd64")
    } else {
        String::from_str(arch)
    }
}

} // verus!
