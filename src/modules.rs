//! Where the three driver modules are looked for.
use vstd::prelude::*;
use crate::error::DriverModule;

verus! {

/// How many places are tried for each module.
pub const MODULE_CANDIDATE_COUNT: usize = 4;

/// The `index`-th place to look for `module`: first its bare name, left to
/// the system's own library search, then the standard driver directories.
pub open spec fn spec_module_candidate(module: DriverModule, index: int) -> Seq<char> {
    match module {
        DriverModule::Compute => if index == 0 {
            "libcuda.so.1"@
        } else if index == 1 {
            "/lib/x86_64-linux-gnu/libcuda.so.1"@
        } else if index == 2 {
            "/usr/lib/x86_64-linux-gnu/libcuda.so.1"@
        } else {
            "/usr/lib64/libcuda.so.1"@
        },
        DriverModule::Capture => if index == 0 {
            "libnvidia-fbc.so.1"@
        } else if index == 1 {
            "/lib/x86_64-linux-gnu/libnvidia-fbc.so.1"@
        } else if index == 2 {
            "/usr/lib/x86_64-linux-gnu/libnvidia-fbc.so.1"@
        } else {
            "/usr/lib64/libnvidia-fbc.so.1"@
        },
        DriverModule::Encode => if index == 0 {
            "libnvidia-encode.so.1"@
        } else if index == 1 {
            "/lib/x86_64-linux-gnu/libnvidia-encode.so.1"@
        } else if index == 2 {
            "/usr/lib/x86_64-linux-gnu/libnvidia-encode.so.1"@
        } else {
            "/usr/lib64/libnvidia-encode.so.1"@
        },
    }
}

/// The `index`-th place to look for `module`, or `None` once every place
/// has been tried; a module found at none of them is a load failure.
pub fn module_candidate(module: DriverModule, index: usize) -> (r: Option<&'static str>)
    ensures
        r is Some <==> index < MODULE_CANDIDATE_COUNT,
        r matches Some(path) ==> path@ == spec_module_candidate(module, index as int),
{
    if index >= MODULE_CANDIDATE_COUNT {
        return None;
    }
    let path = match module {
        DriverModule::Compute => if index == 0 {
            "libcuda.so.1"
        } else if index == 1 {
            "/lib/x86_64-linux-gnu/libcuda.so.1"
        } else if index == 2 {
            "/usr/lib/x86_64-linux-gnu/libcuda.so.1"
        } else {
            "/usr/lib64/libcuda.so.1"
        },
        DriverModule::Capture => if index == 0 {
            "libnvidia-fbc.so.1"
        } else if index == 1 {
            "/lib/x86_64-linux-gnu/libnvidia-fbc.so.1"
        } else if index == 2 {
            "/usr/lib/x86_64-linux-gnu/libnvidia-fbc.so.1"
        } else {
            "/usr/lib64/libnvidia-fbc.so.1"
        },
        DriverModule::Encode => if index == 0 {
            "libnvidia-encode.so.1"
        } else if index == 1 {
            "/lib/x86_64-linux-gnu/libnvidia-encode.so.1"
        } else if index == 2 {
            "/usr/lib/x86_64-linux-gnu/libnvidia-encode.so.1"
        } else {
            "/usr/lib64/libnvidia-encode.so.1"
        },
    };
    Some(path)
}

} // verus!
