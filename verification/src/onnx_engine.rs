//! ONNX Runtime engine: present when the runtime's shared library is
//! installed in one of the usual places.
use vstd::prelude::*;

use crate::once::OnceSlot;

verus! {

broadcast use vstd::string::group_string_axioms;

pub open spec fn system_library() -> &'static str {
    "/usr/lib/libonnxruntime.so"
}

pub open spec fn local_library() -> &'static str {
    "/usr/local/lib/libonnxruntime.so"
}

/// Whether the probe finds the runtime: in the system library directory,
/// or, failing that, in the local one (looked at only when the first is
/// missing).
pub open spec fn runtime_found<F: Fn(&str) -> bool>(path_exists: F, r: bool) -> bool {
    exists|first: bool|
        {
            &&& path_exists.ensures((system_library(),), first)
            &&& first ==> r
            &&& !first ==> exists|second: bool|
                path_exists.ensures((local_library(),), second) && r == second
        }
}

/// What an availability check answers: the cached answer when there is
/// one; otherwise what the probe finds, which is then cached.
pub open spec fn availability<F: Fn(&str) -> bool>(
    before: Option<bool>,
    after: Option<bool>,
    r: bool,
    path_exists: F,
) -> bool {
    match before {
        Some(b) => r == b && after == before,
        None => after == Some(r) && runtime_found(path_exists, r),
    }
}

/// Whether ONNX Runtime is installed. The library is looked for once (with
/// `path_exists`); the answer is kept in `slot` and given from then on.
pub fn is_available<F: Fn(&str) -> bool>(slot: &mut OnceSlot<bool>, path_exists: F) -> (r: bool)
    requires
        path_exists.requires(("/usr/lib/libonnxruntime.so",)),
        path_exists.requires(("/usr/local/lib/libonnxruntime.so",)),
    ensures
        availability(old(slot)@, final(slot)@, r, path_exists),
{
    match slot.get() {
        Some(b) => *b,
        None => {
            let first = path_exists("/usr/lib/libonnxruntime.so");
            let ok = if first {
                true
            } else {
                let second = path_exists("/usr/local/lib/libonnxruntime.so");
                assert(path_exists.ensures((local_library(),), second));
                second
            };
            assert(path_exists.ensures((system_library(),), first));
            let _ = slot.set(ok);
            ok
        },
    }
}

/// Law: once answered, the availability check gives the same answer again.
pub proof fn law_availability_is_stable<F: Fn(&str) -> bool, G: Fn(&str) -> bool>(
    s0: Option<bool>,
    s1: Option<bool>,
    r1: bool,
    f: F,
    s2: Option<bool>,
    r2: bool,
    g: G,
)
    requires
        availability(s0, s1, r1, f),
        availability(s1, s2, r2, g),
    ensures
        r2 == r1,
        s2 == s1,
{
}

/// Loads the SenseNova model at `path`: refused when ONNX Runtime is not
/// installed, accepted otherwise.
pub fn load_sensenova<F: Fn(&str) -> bool>(
    slot: &mut OnceSlot<bool>,
    path_exists: F,
    path: &str,
) -> (r: Result<(), String>)
    requires
        path_exists.requires(("/usr/lib/libonnxruntime.so",)),
        path_exists.requires(("/usr/local/lib/libonnxruntime.so",)),
    ensures
        exists|a: bool|
            {
                &&& availability(old(slot)@, final(slot)@, a, path_exists)
                &&& a ==> r is Ok
                &&& !a ==> (r matches Err(e) && e@ == "ONNX Runtime not found"@)
            },
{
    if !is_available(slot, path_exists) {
        return Err("ONNX Runtime not found".to_string());
    }
    Ok(())
}

} // verus!
