//! Win32 error codes and the `HRESULT` values they map to.

use vstd::prelude::*;

verus! {

pub const ERROR_SUCCESS: u32 = 0;
pub const ERROR_ACCESS_DENIED: u32 = 5;
pub const ERROR_INVALID_HANDLE: u32 = 6;
pub const ERROR_OUTOFMEMORY: u32 = 14;
pub const ERROR_GEN_FAILURE: u32 = 31;
pub const ERROR_INVALID_PARAMETER: u32 = 87;
pub const ERROR_NO_MORE_ITEMS: u32 = 259;
pub const ERROR_NOT_FOUND: u32 = 1168;
pub const ERROR_CANCELLED: u32 = 1223;
pub const ERROR_NOT_AUTHENTICATED: u32 = 1244;
pub const ERROR_REVISION_MISMATCH: u32 = 1306;

/// The `HRESULT` of a Win32 error code: codes that read as a non-positive
/// `i32` stay as they are; any other keeps its low 16 bits under the Win32
/// facility (7) with the failure bit set.
pub open spec fn spec_hresult_from_win32(error: u32) -> i32 {
    if error == 0 || error >= 0x8000_0000 {
        (error - 0x1_0000_0000int * (if error >= 0x8000_0000 { 1int } else { 0int })) as i32
    } else {
        ((error % 0x1_0000) + 0x8007_0000int - 0x1_0000_0000int) as i32
    }
}

/// Only success maps to the `HRESULT` of success (zero).
pub proof fn lemma_hresult_zero_only_for_success(error: u32)
    ensures
        spec_hresult_from_win32(error) == 0 <==> error == ERROR_SUCCESS,
{
}

/// An error reported by a Win32 call, by its `HRESULT`.
#[derive(Clone, Copy, Debug, PartialEq, Eq, Structural)]
pub struct WinError {
    pub code: i32,
}

/// Maps a Win32 error code to its `HRESULT`, as `HRESULT::from_win32` does.
pub fn hresult_from_win32(error: u32) -> (r: i32)
    ensures
        r == spec_hresult_from_win32(error),
{
    if error == 0 {
        0
    } else if error >= 0x8000_0000 {
        let r: i32 = (error - 0x8000_0000) as i32;
        (r - 0x4000_0000) - 0x4000_0000
    } else {
        let low: u32 = error % 0x1_0000;
        let r: i32 = low as i32;
        r + 0x7_0000 - 0x4000_0000 - 0x4000_0000
    }
}

/// Whether an `HRESULT` is the one of a Win32 error code.
pub fn err_eq(h_res: i32, win32_err: u32) -> (r: bool)
    ensures
        r == (h_res == spec_hresult_from_win32(win32_err)),
{
    h_res == hresult_from_win32(win32_err)
}

} // verus!
