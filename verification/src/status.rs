use vstd::prelude::*;
use crate::codec::encode_u32;
use crate::codec::u32_le;

verus! {

/// The closed error surface shared by the host and the contract.  It is
/// extended only by adding a new variant here and a new status code in
/// [`status_outcome`] at the same time: the two sides are built against the
/// same table.
#[derive(Clone, Copy, Debug, PartialEq, Eq, Structural)]
pub enum ContractError {
    /// The host could not complete the requested runtime call: the function
    /// id was not registered, the argument buffer did not decode, or the
    /// handler itself failed.
    FailToCallRuntime,
}

/// The status code reserved for a successful host call.
pub const STATUS_SUCCESS: u32 = 0;

/// The status code naming [`ContractError::FailToCallRuntime`].
pub const STATUS_FAIL_TO_CALL_RUNTIME: u32 = 1;

/// The status-code table: the typed outcome each code names.  `0` means
/// success, every other mapped code names exactly one error variant, and an
/// unmapped code names nothing — on the client such a code is a fatal
/// protocol error, never a guessed variant.
pub open spec fn status_outcome(code: u32) -> Option<Result<(), ContractError>> {
    if code == STATUS_SUCCESS {
        Some(Ok(()))
    } else if code == STATUS_FAIL_TO_CALL_RUNTIME {
        Some(Err(ContractError::FailToCallRuntime))
    } else {
        None
    }
}

/// Translate a status code into its typed outcome, or `None` for a code the
/// table does not map: the caller decides how loudly to fail.
pub fn translate_status(code: u32) -> (r: Option<Result<(), ContractError>>)
    ensures
        r == status_outcome(code),
{
    if code == STATUS_SUCCESS {
        Some(Ok(()))
    } else if code == STATUS_FAIL_TO_CALL_RUNTIME {
        Some(Err(ContractError::FailToCallRuntime))
    } else {
        None
    }
}

impl ContractError {
    /// The client half of the translator: turn the status code of a finished
    /// host call back into its typed outcome.
    ///
    /// A code outside the table is a protocol corruption the client cannot
    /// recover from, so such a code is excluded outright rather than guessed
    /// at.
    pub fn from_status_code(status_code: u32) -> (r: Result<(), ContractError>)
        requires
            status_outcome(status_code) is Some,
        ensures
            Some(r) == status_outcome(status_code),
    {
        if status_code == STATUS_SUCCESS {
            Ok(())
        } else {
            Err(ContractError::FailToCallRuntime)
        }
    }
}

/// The host half of the translator: turn a handler's outcome into the status
/// code and output buffer that cross the sandbox boundary.  Success carries
/// the encoded value; an error carries its code and an empty buffer.
pub fn to_code(res: Result<u32, ContractError>) -> (r: (u32, Vec<u8>))
    ensures
        res matches Ok(v) ==> r.0 == STATUS_SUCCESS && r.1@ == u32_le(v),
        res is Err ==> r.0 == STATUS_FAIL_TO_CALL_RUNTIME && r.1@ == Seq::<u8>::empty(),
{
    match res {
        Ok(v) => (STATUS_SUCCESS, encode_u32(v)),
        Err(ContractError::FailToCallRuntime) => (STATUS_FAIL_TO_CALL_RUNTIME, Vec::new()),
    }
}

} // verus!
