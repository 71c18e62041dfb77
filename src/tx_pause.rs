//! Proxy kinds and the calls that may never be paused, as the transaction
//! pause pallet's runtime configures them.
use vstd::prelude::*;

verus! {

/// Kinds of proxy that an account may grant.
#[derive(Clone, Copy, Debug, PartialEq, Eq, Structural, PartialOrd, Ord)]
pub enum ProxyType {
    Any,
    JustTransfer,
    JustUtility,
}

impl Default for ProxyType {
    fn default() -> (r: Self)
        ensures
            r == ProxyType::Any,
    {
        ProxyType::Any
    }
}

impl ProxyType {
    /// Whether a proxy of this kind may do all that one of kind `o` may.
    pub fn is_superset(&self, o: &Self) -> (r: bool)
        ensures
            r == (*self == ProxyType::Any || *self == *o),
    {
        *self == ProxyType::Any || *self == *o
    }
}

/// `b"Balances"`.
pub open spec fn balances_name() -> Seq<u8> {
    seq![66u8, 97, 108, 97, 110, 99, 101, 115]
}

/// `b"transfer_keep_alive"`.
pub open spec fn transfer_keep_alive_name() -> Seq<u8> {
    seq![116u8, 114, 97, 110, 115, 102, 101, 114, 95, 107, 101, 101, 112, 95, 97, 108, 105, 118, 101]
}

/// Whether `a` holds exactly the bytes of `b`.
fn bytes_are(a: &Vec<u8>, b: &[u8]) -> (r: bool)
    ensures
        r == (a@ == b@),
{
    if a.len() != b.len() {
        return false;
    }
    let mut i: usize = 0;
    while i < a.len()
        invariant
            a@.len() == b@.len(),
            i <= a@.len(),
            forall|j: int| 0 <= j < i ==> a@[j] == b@[j],
        decreases a@.len() - i,
    {
        if a[i] != b[i] {
            return false;
        }
        i = i + 1;
    }
    assert(a@ =~= b@);
    true
}

/// Calls that are never paused.
pub struct WhitelistedCalls;

impl WhitelistedCalls {
    /// Whether the call named by `(pallet, call)` is whitelisted: only the
    /// balances pallet's `transfer_keep_alive` is.
    pub fn contains(full_name: &(Vec<u8>, Vec<u8>)) -> (r: bool)
        ensures
            r == (full_name.0@ == balances_name() && full_name.1@ == transfer_keep_alive_name()),
    {
        let pallet: [u8; 8] = [66, 97, 108, 97, 110, 99, 101, 115];
        let call: [u8; 19] = [
            116, 114, 97, 110, 115, 102, 101, 114, 95, 107, 101, 101, 112, 95, 97, 108, 105, 118, 101,
        ];
        assert(pallet@ =~= balances_name());
        assert(call@ =~= transfer_keep_alive_name());
        bytes_are(&full_name.0, pallet.as_slice()) && bytes_are(&full_name.1, call.as_slice())
    }
}

} // verus!
