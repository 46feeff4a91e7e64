//! Ledger account addresses and the seed strings that derive them.
//!
//! An address is 32 bytes. The program never stores an address it can
//! re-derive: every lookup re-runs the derivation from seeds and compares
//! byte for byte, which is what `addr_eq` is for.

use vstd::prelude::*;

verus! {

/// A 32-byte ledger account address, held as plain bytes.
#[derive(Clone, Debug)]
pub struct Address {
    pub bytes: Vec<u8>,
}

impl View for Address {
    type V = Seq<u8>;

    open spec fn view(&self) -> Seq<u8> {
        self.bytes@
    }
}

impl Address {
    /// A well-formed address is exactly 32 bytes long.
    pub open spec fn wf(&self) -> bool {
        self.bytes@.len() == 32
    }
}

/// Byte-for-byte address comparison; the only equality the program trusts.
pub fn addr_eq(a: &Address, b: &Address) -> (r: bool)
    ensures
        r == (a@ == b@),
{
    if a.bytes.len() != b.bytes.len() {
        assert(a@ != b@);
        return false;
    }
    let n = a.bytes.len();
    let mut i: usize = 0;
    while i < n
        invariant
            i <= n,
            n == a.bytes@.len(),
            n == b.bytes@.len(),
            forall|j: int| 0 <= j < i ==> a.bytes@[j] == b.bytes@[j],
        decreases n - i,
    {
        if a.bytes[i] != b.bytes[i] {
            assert(a@ != b@);
            return false;
        }
        i += 1;
    }
    proof {
        assert(a@ =~= b@);
    }
    true
}

/// The seed string `"state"` that keys the metadata record, as bytes.
pub open spec fn spec_state_tag() -> Seq<u8> {
    seq![115u8, 116u8, 97u8, 116u8, 101u8]
}

/// The seed string `"vault"` that keys the fund sub-account, as bytes.
pub open spec fn spec_vault_tag() -> Seq<u8> {
    seq![118u8, 97u8, 117u8, 108u8, 116u8]
}

/// Builds the `"state"` seed.
pub fn state_tag() -> (r: Vec<u8>)
    ensures
        r@ == spec_state_tag(),
{
    let mut v: Vec<u8> = Vec::new();
    v.push(115);
    v.push(116);
    v.push(97);
    v.push(116);
    v.push(101);
    proof {
        assert(v@ =~= spec_state_tag());
    }
    v
}

/// Builds the `"vault"` seed.
pub fn vault_tag() -> (r: Vec<u8>)
    ensures
        r@ == spec_vault_tag(),
{
    let mut v: Vec<u8> = Vec::new();
    v.push(118);
    v.push(97);
    v.push(117);
    v.push(108);
    v.push(116);
    proof {
        assert(v@ =~= spec_vault_tag());
    }
    v
}

/// Seed sequence for a user's metadata record: `["state", user address]`.
pub open spec fn spec_state_seeds(user: Seq<u8>) -> Seq<Seq<u8>> {
    seq![spec_state_tag(), user]
}

/// Seed sequence for a fund sub-account: `["vault", metadata record address]`.
/// The nesting is deliberate: the vault address depends on the record's
/// address, not directly on the user.
pub open spec fn spec_vault_seeds(state_addr: Seq<u8>) -> Seq<Seq<u8>> {
    seq![spec_vault_tag(), state_addr]
}

} // verus!
