//! Status codes of Windows calls, as `windows_result` reads them.

use vstd::prelude::*;

verus! {

/// The error of a call that failed, as the HRESULT that names it.
#[derive(Clone, Copy, Debug, PartialEq, Eq, Structural)]
pub struct WinError {
    pub code: i32,
}

/// The HRESULT of an NTSTATUS: a success keeps its number, a failure gets the bit that
/// marks codes of the NT kernel.
pub open spec fn hresult_of_nt(status: i32) -> i32 {
    if status >= 0 {
        status
    } else {
        status | 0x1000_0000
    }
}

/// What an HRESULT says of the call that returned it: a failure is a negative number.
pub open spec fn outcome_of(code: i32) -> Result<(), WinError> {
    if code >= 0 {
        Ok(())
    } else {
        Err(WinError { code })
    }
}

/// `windows_result::HRESULT::from_nt`: the HRESULT of an NTSTATUS, with bit 28 set where
/// the status is negative and the number unchanged where it is not.
#[verifier::external_body]
fn hresult_from_nt(status: i32) -> (code: i32)
    ensures
        code == hresult_of_nt(status),
{
    windows_result::HRESULT::from_nt(status).0
}

/// `windows_result::HRESULT::ok`: success for a code that is not negative, and for any
/// other an error whose code is the HRESULT itself. What else the error holds, which on
/// Windows comes from the thread, is dropped.
#[verifier::external_body]
fn hresult_ok(code: i32) -> (outcome: Result<(), i32>)
    ensures
        outcome is Ok <==> code >= 0,
        outcome matches Err(error) ==> error == code,
{
    windows_result::HRESULT(code).ok().map_err(|error| error.code().0)
}

/// Reads the HRESULT that a call returned.
pub fn check_hresult(code: i32) -> (outcome: Result<(), WinError>)
    ensures
        outcome == outcome_of(code),
{
    match hresult_ok(code) {
        Ok(()) => Ok(()),
        Err(code) => Err(WinError { code }),
    }
}

/// Reads the NTSTATUS that a call returned.
pub fn check_nt(status: i32) -> (outcome: Result<(), WinError>)
    ensures
        outcome == outcome_of(hresult_of_nt(status)),
{
    check_hresult(hresult_from_nt(status))
}

/// An NT call succeeded exactly where its status is not negative, whatever HRESULT the
/// status is turned into.
pub proof fn nt_failure_is_kept(status: i32)
    ensures
        outcome_of(hresult_of_nt(status)) is Ok <==> status >= 0,
{
    assert(status < 0 ==> (status | 0x1000_0000) < 0) by (bit_vector);
}

} // verus!
