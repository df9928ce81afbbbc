use crate::address::Address;
use crate::make_offer::offer_made;
use crate::state::{vault_balance, Escrow, EscrowError, TokenAccount};
use crate::take_offer::{offer_taken, take_offer_error, TakeAccounts};
use vstd::prelude::*;

verus! {

/// Making an offer is atomic: the transfer out of the maker's account is
/// observable exactly when the escrow record is, and a refusal leaves both as
/// they were.
pub proof fn lemma_make_offer_atomic(
    derived: Option<(Seq<u8>, u8)>,
    maker: Address,
    id: u64,
    token_a_mint: Address,
    token_a_offered_amount: u64,
    token_b_mint: Address,
    token_b_wanted_amount: u64,
    old_source: TokenAccount,
    old_slot: Option<Escrow>,
    r: Result<(), EscrowError>,
    new_source: TokenAccount,
    new_slot: Option<Escrow>,
)
    requires
        offer_made(
            derived,
            maker,
            id,
            token_a_mint,
            token_a_offered_amount,
            token_b_mint,
            token_b_wanted_amount,
            old_source,
            old_slot,
            r,
            new_source,
            new_slot,
        ),
    ensures
        (new_source != old_source) == (new_slot != old_slot),
        r is Ok ==> new_source.amount == old_source.amount - token_a_offered_amount
            && vault_balance(new_slot) == token_a_offered_amount,
        r is Err ==> new_source == old_source && new_slot == old_slot,
{
}

/// An offer with a zero amount on either side is refused as invalid, and
/// nothing changes.
pub proof fn lemma_zero_amount_rejected(
    derived: Option<(Seq<u8>, u8)>,
    maker: Address,
    id: u64,
    token_a_mint: Address,
    token_a_offered_amount: u64,
    token_b_mint: Address,
    token_b_wanted_amount: u64,
    old_source: TokenAccount,
    old_slot: Option<Escrow>,
    r: Result<(), EscrowError>,
    new_source: TokenAccount,
    new_slot: Option<Escrow>,
)
    requires
        token_a_offered_amount == 0 || token_b_wanted_amount == 0,
        offer_made(
            derived,
            maker,
            id,
            token_a_mint,
            token_a_offered_amount,
            token_b_mint,
            token_b_wanted_amount,
            old_source,
            old_slot,
            r,
            new_source,
            new_slot,
        ),
    ensures
        r == Err::<(), EscrowError>(EscrowError::InvalidAmount),
        new_source == old_source,
        new_slot == old_slot,
{
}

/// Once a take has succeeded on an escrow, every later take on it is refused
/// with `OfferNotFound`, whoever calls it and with whatever accounts.
pub proof fn lemma_no_double_take(
    derived: Option<(Seq<u8>, u8)>,
    taker: Address,
    old_acc: TakeAccounts,
    old_slot: Option<Escrow>,
    r: Result<(), EscrowError>,
    new_acc: TakeAccounts,
    new_slot: Option<Escrow>,
    later_derived: Option<(Seq<u8>, u8)>,
    later_taker: Address,
    later_acc: TakeAccounts,
)
    requires
        offer_taken(derived, taker, old_acc, old_slot, r, new_acc, new_slot),
        r is Ok,
    ensures
        take_offer_error(later_derived, later_taker, later_acc, new_slot) == Some(EscrowError::OfferNotFound),
{
}

/// A successful take conserves tokens: the taker's offered-asset balance grows
/// by exactly the vault's deposit, the maker's wanted-asset balance grows by
/// exactly the wanted amount, which the taker pays, and no token is created or
/// destroyed on either side.
pub proof fn lemma_take_conserves(
    derived: Option<(Seq<u8>, u8)>,
    taker: Address,
    old_acc: TakeAccounts,
    old_slot: Option<Escrow>,
    r: Result<(), EscrowError>,
    new_acc: TakeAccounts,
    new_slot: Option<Escrow>,
)
    requires
        offer_taken(derived, taker, old_acc, old_slot, r, new_acc, new_slot),
        r is Ok,
    ensures
        old_slot is Some,
        new_acc.taker_a.amount == old_acc.taker_a.amount + vault_balance(old_slot),
        new_acc.maker_b.amount == old_acc.maker_b.amount + old_slot.unwrap().offer.token_b_wanted_amount,
        new_acc.taker_b.amount == old_acc.taker_b.amount - old_slot.unwrap().offer.token_b_wanted_amount,
        new_acc.taker_b.amount + new_acc.maker_b.amount == old_acc.taker_b.amount + old_acc.maker_b.amount,
        new_acc.taker_a.amount + vault_balance(new_slot) == old_acc.taker_a.amount + vault_balance(old_slot),
{
}

/// After a successful take no custody is left: the escrow, and with it the
/// vault, no longer exists, and nothing is held for the offer.
pub proof fn lemma_take_leaves_no_custody(
    derived: Option<(Seq<u8>, u8)>,
    taker: Address,
    old_acc: TakeAccounts,
    old_slot: Option<Escrow>,
    r: Result<(), EscrowError>,
    new_acc: TakeAccounts,
    new_slot: Option<Escrow>,
)
    requires
        offer_taken(derived, taker, old_acc, old_slot, r, new_acc, new_slot),
        r is Ok,
    ensures
        new_slot is None,
        vault_balance(new_slot) == 0,
{
}

/// Two takes of one escrow, run one after the other as the ledger orders
/// them, never both succeed, and together they pay out the deposit once when
/// either succeeds, and nothing otherwise. The second is refused with
/// `OfferNotFound` whenever the first succeeded.
pub proof fn lemma_competing_takes(
    first_derived: Option<(Seq<u8>, u8)>,
    first_taker: Address,
    first_old: TakeAccounts,
    first_new: TakeAccounts,
    first_r: Result<(), EscrowError>,
    second_derived: Option<(Seq<u8>, u8)>,
    second_taker: Address,
    second_old: TakeAccounts,
    second_new: TakeAccounts,
    second_r: Result<(), EscrowError>,
    slot0: Option<Escrow>,
    slot1: Option<Escrow>,
    slot2: Option<Escrow>,
)
    requires
        offer_taken(first_derived, first_taker, first_old, slot0, first_r, first_new, slot1),
        offer_taken(second_derived, second_taker, second_old, slot1, second_r, second_new, slot2),
    ensures
        !(first_r is Ok && second_r is Ok),
        first_r is Ok ==> second_r == Err::<(), EscrowError>(EscrowError::OfferNotFound),
        (first_new.taker_a.amount - first_old.taker_a.amount) + (second_new.taker_a.amount
            - second_old.taker_a.amount) == if first_r is Ok || second_r is Ok {
            vault_balance(slot0) as int
        } else {
            0
        },
        vault_balance(slot2) + (first_new.taker_a.amount - first_old.taker_a.amount) + (
        second_new.taker_a.amount - second_old.taker_a.amount) == vault_balance(slot0),
{
}

} // verus!
