//! The status codes of the LZMA SDK that the engine itself produces. Every
//! other status passes through the engine as the decoder gave it.

use vstd::prelude::*;

verus! {

/// The SDK's status code for "out of memory".
pub const SZ_ERROR_MEM: i32 = 2;

/// The SDK's status code for a failure without a more specific code; the
/// decoder itself answers so where an entry would not lie within its block.
pub const SZ_ERROR_FAIL: i32 = 11;

/// Reads `lzma_sdk_sys::SZ_ERROR_MEM`, which the binding declares as 2.
#[verifier::external_body]
pub(crate) fn sz_error_mem() -> (code: i32)
    ensures
        code == SZ_ERROR_MEM,
{
    lzma_sdk_sys::SZ_ERROR_MEM as i32
}

/// Reads `lzma_sdk_sys::SZ_ERROR_FAIL`, which the binding declares as 11.
#[verifier::external_body]
pub(crate) fn sz_error_fail() -> (code: i32)
    ensures
        code == SZ_ERROR_FAIL,
{
    lzma_sdk_sys::SZ_ERROR_FAIL as i32
}

} // verus!
