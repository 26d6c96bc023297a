use vstd::prelude::*;

verus! {

/// What a transition reads of one entry in the positional account list: the
/// account's 32-byte identity and whether the host runtime verified that this
/// party signed the enclosing transaction. Everything else about an account
/// (balances, data, write locks) belongs to the host and to the sub-ledgers.
#[derive(Clone, Copy, Debug)]
pub struct AccountRef {
    /// The account's identity on the ledger.
    pub key: [u8; 32],
    /// Whether this account is an authorizing signer of the invocation.
    pub is_signer: bool,
}

/// True exactly when two 32-byte identities hold the same bytes.
pub fn key_eq(a: &[u8; 32], b: &[u8; 32]) -> (r: bool)
    ensures
        r <==> a@ == b@,
{
    let mut i: usize = 0;
    while i < 32
        invariant
            i <= 32,
            forall|j: int| 0 <= j < i ==> a@[j] == b@[j],
        decreases 32 - i,
    {
        if a[i] != b[i] {
            return false;
        }
        i = i + 1;
    }
    proof {
        assert(a@ =~= b@);
    }
    true
}

} // verus!
