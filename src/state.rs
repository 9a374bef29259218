use vstd::prelude::*;

verus! {

/// A 32-byte account address: an owner, a mint, a program or a token account.
#[derive(Debug, Clone, Copy)]
pub struct Key {
    pub bytes: [u8; 32],
}

impl View for Key {
    type V = Seq<u8>;

    open spec fn view(&self) -> Seq<u8> {
        self.bytes@
    }
}

impl Key {
    /// Whether two addresses are the same.
    pub fn same(&self, other: &Key) -> (r: bool)
        ensures
            r == (self@ == other@),
    {
        let mut i: usize = 0;
        while i < 32
            invariant
                0 <= i <= 32,
                self@.len() == 32,
                other@.len() == 32,
                forall|j: int| 0 <= j < i ==> self@[j] == other@[j],
            decreases 32 - i,
        {
            if self.bytes[i] != other.bytes[i] {
                return false;
            }
            i = i + 1;
        }
        assert(self@ =~= other@);
        true
    }
}

/// The persisted record of one vault: one per (owner, mint) pair.
#[derive(Debug, Clone, Copy)]
pub struct VaultInfo {
    /// The only identity allowed to operate the vault.
    pub owner: Key,
    /// The balance the vault accounts for.
    pub amount: u64,
    /// The token the vault holds.
    pub mint: Key,
    /// Derivation salt of the record's address.
    pub vault_info_bump: u8,
    /// Derivation salt of the holding account's address.
    pub vault_token_bump: u8,
    /// Unix time of creation; informational.
    pub created_at: i64,
}

} // verus!
