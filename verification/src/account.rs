use vstd::prelude::*;

verus! {

/// An account identity: the key under which the storage collaborator files
/// values, the signer of an extrinsic, and the address of a deployed
/// contract.
///
/// The bridge never inspects an account beyond comparing identities, so a
/// single machine word stands for one.
#[derive(Clone, Copy, Debug, PartialEq, Eq, Structural)]
pub struct AccountId {
    pub id: u32,
}

impl AccountId {
    /// Make the account with the given identity.
    pub fn new(id: u32) -> (r: AccountId)
        ensures
            r.id == id,
    {
        AccountId { id }
    }
}

} // verus!
