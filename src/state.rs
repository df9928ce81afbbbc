use crate::address::Address;
use vstd::prelude::*;

verus! {

/// A holding account of one asset type: who owns it, which mint it holds, and how much.
#[derive(Clone, Copy, Debug)]
pub struct TokenAccount {
    pub owner: Address,
    pub mint: Address,
    pub amount: u64,
}

/// One outstanding swap intent. Nothing in it changes between its creation and
/// its consumption.
#[derive(Clone, Copy, Debug)]
pub struct OfferRecord {
    pub id: u64,
    pub maker: Address,
    pub token_a_mint: Address,
    pub token_b_mint: Address,
    pub token_b_wanted_amount: u64,
    /// The vault's authority, derived from the maker and the id.
    pub authority: Address,
    /// The bump seed that the derivation of `authority` found.
    pub bump: u8,
}

/// An offer record together with the vault that holds its offered asset.
/// The two live in one value, so neither can exist without the other.
#[derive(Clone, Copy, Debug)]
pub struct Escrow {
    pub offer: OfferRecord,
    /// The vault's balance of `offer.token_a_mint`.
    pub vault: u64,
}

/// Why an operation was refused. A refused operation changes nothing.
#[derive(Clone, Copy, Debug, PartialEq, Eq, Structural)]
pub enum EscrowError {
    /// An amount of zero was offered or asked for.
    InvalidAmount,
    /// The paying account holds less than the transfer needs.
    InsufficientBalance,
    /// A live offer already stands at the address of this maker and id.
    DuplicateOffer,
    /// No live offer stands where the taker looked, or it was consumed already.
    OfferNotFound,
    /// An account presented holds another asset type than the offer records.
    AssetMismatch,
    /// An account presented belongs to another party than it should.
    WrongOwner,
    /// A credit would take a balance past the largest amount an account holds.
    BalanceOverflow,
    /// No address could be derived from the offer's seeds.
    NoViableAddress,
}

/// `acc` with its balance set to `amount`.
pub open spec fn with_amount(acc: TokenAccount, amount: int) -> TokenAccount {
    TokenAccount { amount: amount as u64, ..acc }
}

/// The balance held in custody for the offer in `slot`: zero where none stands.
pub open spec fn vault_balance(slot: Option<Escrow>) -> nat {
    match slot {
        Some(e) => e.vault as nat,
        None => 0,
    }
}

} // verus!
