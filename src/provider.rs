//! The closed set of signing backends.
use vstd::prelude::*;

verus! {

/// Which backend produced a signer. Set once, when the signer is built.
#[derive(Clone, Copy, Debug, PartialEq, Eq, Structural)]
pub enum SigningProvider {
    /// Ed25519 key held in process memory.
    SoftSign,
    /// YubiHSM2 hardware security module.
    YubiHsm,
    /// Ledger hardware wallet.
    LedgerTm,
    /// Fortanix data security manager.
    FortanixDsm,
}

} // verus!
