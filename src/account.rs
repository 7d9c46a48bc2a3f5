//! The host's view of an account and of an instruction's account reference.
use vstd::prelude::*;

verus! {

/// Length of an account address.
pub const PUBKEY_LEN: usize = 32;

/// An account address.
pub type Pubkey = [u8; PUBKEY_LEN];

/// An account as the host lends it for one invocation: its address and a
/// borrow of its data.
pub struct AccountInfo<'a> {
    pub key: Pubkey,
    pub data: &'a [u8],
}

impl<'a> AccountInfo<'a> {
    /// The address of the account.
    pub fn key(&self) -> (r: &Pubkey)
        ensures
            *r == self.key,
    {
        &self.key
    }
}

/// A reference from an instruction to an account, with its permissions.
pub struct AccountMeta<'a> {
    pub pubkey: &'a [u8],
    pub is_writable: bool,
    pub is_signer: bool,
}

/// Whether the addresses `a` and `b` are equal.
pub fn pubkey_eq(a: &Pubkey, b: &Pubkey) -> (r: bool)
    ensures
        r == (a@ == b@),
{
    let mut i: usize = 0;
    while i < PUBKEY_LEN
        invariant
            i <= PUBKEY_LEN,
            forall|j: int| 0 <= j < i ==> a@[j] == b@[j],
        decreases PUBKEY_LEN - i,
    {
        if a[i] != b[i] {
            return false;
        }
        i = i + 1;
    }
    assert(a@ =~= b@);
    true
}

} // verus!
