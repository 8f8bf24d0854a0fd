//! Transfer requests. The library never moves balances itself: each operation
//! returns the transfers it needs, in order, for the host to apply atomically
//! with the state change.
use vstd::prelude::*;
use crate::pubkey::Pubkey;

verus! {

#[derive(Debug, Clone, Copy, PartialEq, Eq, Structural)]
pub enum Asset {
    /// Native currency, in its smallest unit.
    Sol,
    /// Units of the curve's token.
    Token,
}

/// Move `amount` of `asset` from `from` to `to`. With `curve_signed` the
/// transfer is authorised by the curve's own identity rather than the caller.
#[derive(Debug, Clone, Copy)]
pub struct TransferIntent {
    pub asset: Asset,
    pub from: Pubkey,
    pub to: Pubkey,
    pub amount: u64,
    pub curve_signed: bool,
}

pub open spec fn intent(asset: Asset, from: Pubkey, to: Pubkey, amount: u64, curve_signed: bool) -> TransferIntent {
    TransferIntent { asset, from, to, amount, curve_signed }
}

/// A currency transfer authorised by the paying user.
pub fn sol_transfer_from_user(signer: Pubkey, destination: Pubkey, amount: u64) -> (r: TransferIntent)
    ensures
        r == intent(Asset::Sol, signer, destination, amount, false),
{
    TransferIntent { asset: Asset::Sol, from: signer, to: destination, amount, curve_signed: false }
}

/// A currency transfer out of a curve-held account, authorised by the curve.
pub fn sol_transfer_with_signer(source: Pubkey, destination: Pubkey, amount: u64) -> (r: TransferIntent)
    ensures
        r == intent(Asset::Sol, source, destination, amount, true),
{
    TransferIntent { asset: Asset::Sol, from: source, to: destination, amount, curve_signed: true }
}

/// A token transfer authorised by the owning user.
pub fn token_transfer_user(from: Pubkey, to: Pubkey, amount: u64) -> (r: TransferIntent)
    ensures
        r == intent(Asset::Token, from, to, amount, false),
{
    TransferIntent { asset: Asset::Token, from, to, amount, curve_signed: false }
}

/// A token transfer out of a curve-held account, authorised by the curve.
pub fn token_transfer_with_signer(from: Pubkey, to: Pubkey, amount: u64) -> (r: TransferIntent)
    ensures
        r == intent(Asset::Token, from, to, amount, true),
{
    TransferIntent { asset: Asset::Token, from, to, amount, curve_signed: true }
}

} // verus!
