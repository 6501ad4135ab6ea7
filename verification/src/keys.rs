//! Identities: the 32-byte addresses that name parties, assets and accounts.

use vstd::prelude::*;
use anchor_lang::prelude::Pubkey;
use anchor_spl::token_interface::spl_token_2022::cmp_pubkeys;

verus! {

/// A 32-byte identity of a party, an asset or an account.
#[derive(Clone, Copy, Debug, PartialEq, Eq)]
pub struct Key {
    pub bytes: [u8; 32],
}

impl View for Key {
    type V = Seq<u8>;

    open spec fn view(&self) -> Seq<u8> {
        self.bytes@
    }
}

/// Calls `cmp_pubkeys` of the SPL token program on two addresses given as
/// bytes. The contract claims that the call answers `true` exactly when the
/// two addresses agree in all 32 bytes.
#[verifier::external_body]
fn cmp_key_bytes(a: &[u8; 32], b: &[u8; 32]) -> (r: bool)
    ensures
        r == (a@ == b@),
{
    cmp_pubkeys(&Pubkey::new_from_array(*a), &Pubkey::new_from_array(*b))
}

impl Key {
    /// The identity with the given bytes.
    pub fn new(bytes: [u8; 32]) -> (k: Key)
        ensures
            k.bytes == bytes,
            k@ == bytes@,
    {
        Key { bytes }
    }

    /// The 32 bytes of this identity.
    pub fn to_bytes(&self) -> (b: [u8; 32])
        ensures
            b == self.bytes,
            b@ == self@,
    {
        self.bytes
    }

    /// Whether two identities are the same address.
    pub fn same(&self, other: &Key) -> (r: bool)
        ensures
            r == (*self == *other),
    {
        let r = cmp_key_bytes(&self.bytes, &other.bytes);
        proof {
            lemma_key_extensional(*self, *other);
        }
        r
    }
}

/// Two identities with the same bytes are the same identity.
pub proof fn lemma_key_extensional(a: Key, b: Key)
    ensures
        (a@ == b@) == (a == b),
{
    if a@ == b@ {
        assert(a.bytes =~= b.bytes);
    }
}

} // verus!
