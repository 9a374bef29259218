use vstd::prelude::*;
use crate::state::Key;

verus! {

/// A token transfer that an instruction asks the ledger to perform.
#[derive(Debug, Clone, Copy)]
pub struct TokenTransfer {
    /// The token account debited.
    pub from: Key,
    /// The token account credited.
    pub to: Key,
    /// The identity that authorizes the debit.
    pub authority: Key,
    pub amount: u64,
    /// Whether the vault itself authorizes, by its derived seeds, rather
    /// than the signer of the instruction.
    pub vault_signed: bool,
}

/// A token account that an instruction asks the ledger to close; the
/// vault authorizes it by its derived seeds.
#[derive(Debug, Clone, Copy)]
pub struct CloseAccountOrder {
    /// The token account closed.
    pub account: Key,
    /// Where its storage deposit goes.
    pub destination: Key,
    /// The identity that authorizes the close.
    pub authority: Key,
}

/// The first seed of a vault record's address.
pub const VAULT_INFO_SEED: [u8; 10] = [118, 97, 117, 108, 116, 95, 105, 110, 102, 111];

/// The seeds by which the vault record of (`owner`, `mint`) signs.
pub open spec fn vault_seeds(owner: Seq<u8>, mint: Seq<u8>, bump: u8) -> Seq<Seq<u8>> {
    seq![VAULT_INFO_SEED@, owner, mint, seq![bump]]
}

fn bytes_to_vec(b: &[u8]) -> (r: Vec<u8>)
    ensures
        r@ == b@,
{
    let mut r: Vec<u8> = Vec::new();
    let mut i: usize = 0;
    while i < b.len()
        invariant
            0 <= i <= b@.len(),
            r@ == b@.subrange(0, i as int),
        decreases b@.len() - i,
    {
        r.push(b[i]);
        i = i + 1;
    }
    assert(r@ =~= b@);
    r
}

/// The authority proof of a vault: the seeds that its record's address is
/// derived from, which the ledger accepts in place of a signature.
pub fn vault_signer_seeds(owner: &Key, mint: &Key, bump: u8) -> (r: Vec<Vec<u8>>)
    ensures
        r@.len() == 4,
        forall|i: int| 0 <= i < 4 ==> #[trigger] r@[i]@ == vault_seeds(owner@, mint@, bump)[i],
{
    let mut r: Vec<Vec<u8>> = Vec::new();
    r.push(bytes_to_vec(VAULT_INFO_SEED.as_slice()));
    r.push(bytes_to_vec(owner.bytes.as_slice()));
    r.push(bytes_to_vec(mint.bytes.as_slice()));
    let mut b: Vec<u8> = Vec::new();
    b.push(bump);
    r.push(b);
    assert(r@[3]@ =~= seq![bump]);
    r
}

} // verus!
