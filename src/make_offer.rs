use crate::address::{derived_view, offer_seeds, program_address_of, same, vault_authority, Address};
use crate::state::{with_amount, Escrow, EscrowError, OfferRecord, TokenAccount};
use vstd::prelude::*;

verus! {

/// The error, if any, with which a maker's offer is refused, checked in this
/// order: a zero amount, an address already taken, a source account of
/// another asset than the offered one, a source account that is not the maker's, too small a balance, and no derivable vault authority.
pub open spec fn make_offer_error(
    derived: Option<(Seq<u8>, u8)>,
    maker: Address,
    token_a_mint: Address,
    token_a_offered_amount: u64,
    token_b_wanted_amount: u64,
    source: TokenAccount,
    slot: Option<Escrow>,
) -> Option<EscrowError> {
    if token_a_offered_amount == 0 || token_b_wanted_amount == 0 {
        Some(EscrowError::InvalidAmount)
    } else if slot is Some {
        Some(EscrowError::DuplicateOffer)
    } else if !same(source.mint, token_a_mint) {
        Some(EscrowError::AssetMismatch)
    } else if !same(source.owner, maker) {
        Some(EscrowError::WrongOwner)
    } else if source.amount < token_a_offered_amount {
        Some(EscrowError::InsufficientBalance)
    } else if derived is None {
        Some(EscrowError::NoViableAddress)
    } else {
        None
    }
}

/// The escrow that a successful offer leaves: the record as the maker gave it,
/// with the derived authority, and a vault holding the offered amount.
pub open spec fn is_opened_escrow(
    e: Escrow,
    derived: Option<(Seq<u8>, u8)>,
    maker: Address,
    id: u64,
    token_a_mint: Address,
    token_a_offered_amount: u64,
    token_b_mint: Address,
    token_b_wanted_amount: u64,
    source: TokenAccount,
) -> bool {
    &&& e.offer.id == id
    &&& e.offer.maker == maker
    &&& e.offer.token_a_mint == token_a_mint
    &&& e.offer.token_b_mint == token_b_mint
    &&& e.offer.token_b_wanted_amount == token_b_wanted_amount
    &&& derived == Some((e.offer.authority.bytes@, e.offer.bump))
    &&& e.vault == token_a_offered_amount
}

/// What making an offer does: on a refusal nothing changes; on success the
/// offered amount leaves the maker's account and the escrow stands with
/// exactly that amount in its vault.
pub open spec fn offer_made(
    derived: Option<(Seq<u8>, u8)>,
    maker: Address,
    id: u64,
    token_a_mint: Address,
    token_a_offered_amount: u64,
    token_b_mint: Address,
    token_b_wanted_amount: u64,
    old_source: TokenAccount,
    old_slot: Option<Escrow>,
    r: Result<(), EscrowError>,
    new_source: TokenAccount,
    new_slot: Option<Escrow>,
) -> bool {
    match make_offer_error(derived, maker, token_a_mint, token_a_offered_amount, token_b_wanted_amount, old_source, old_slot) {
        Some(e) => r == Err::<(), EscrowError>(e) && new_source == old_source && new_slot == old_slot,
        None => {
            &&& r is Ok
            &&& new_source == with_amount(old_source, old_source.amount - token_a_offered_amount)
            &&& new_slot is Some
            &&& is_opened_escrow(
                new_slot.unwrap(),
                derived,
                maker,
                id,
                token_a_mint,
                token_a_offered_amount,
                token_b_mint,
                token_b_wanted_amount,
                old_source,
            )
        },
    }
}

/// Opens the offer `(maker, id)` in `slot`, the storage at its address, given
/// what the derivation of its vault authority returned: moves the offered
/// amount from `source` into the new vault and records the offer.
pub fn open_offer(
    derived: Option<(Address, u8)>,
    maker: &Address,
    id: u64,
    token_a_mint: &Address,
    token_a_offered_amount: u64,
    token_b_mint: &Address,
    token_b_wanted_amount: u64,
    source: &mut TokenAccount,
    slot: &mut Option<Escrow>,
) -> (r: Result<(), EscrowError>)
    ensures
        offer_made(
            derived_view(derived),
            *maker,
            id,
            *token_a_mint,
            token_a_offered_amount,
            *token_b_mint,
            token_b_wanted_amount,
            *old(source),
            *old(slot),
            r,
            *final(source),
            *final(slot),
        ),
{
    if token_a_offered_amount == 0 || token_b_wanted_amount == 0 {
        return Err(EscrowError::InvalidAmount);
    }
    if slot.is_some() {
        return Err(EscrowError::DuplicateOffer);
    }
    if source.mint != *token_a_mint {
        return Err(EscrowError::AssetMismatch);
    }
    if source.owner != *maker {
        return Err(EscrowError::WrongOwner);
    }
    if source.amount < token_a_offered_amount {
        return Err(EscrowError::InsufficientBalance);
    }
    match derived {
        None => Err(EscrowError::NoViableAddress),
        Some((authority, bump)) => {
            let offer = OfferRecord {
                id,
                maker: *maker,
                token_a_mint: *token_a_mint,
                token_b_mint: *token_b_mint,
                token_b_wanted_amount,
                authority,
                bump,
            };
            source.amount = source.amount - token_a_offered_amount;
            *slot = Some(Escrow { offer, vault: token_a_offered_amount });
            Ok(())
        },
    }
}

/// Makes the offer `(maker, id)` under the program `program_id`: derives the
/// vault authority from the maker and the id, then opens the offer as
/// `open_offer` does. Either the transfer into the vault and the record both
/// happen, or neither does.
pub fn make_offer(
    program_id: &Address,
    maker: &Address,
    id: u64,
    token_a_mint: &Address,
    token_a_offered_amount: u64,
    token_b_mint: &Address,
    token_b_wanted_amount: u64,
    source: &mut TokenAccount,
    slot: &mut Option<Escrow>,
) -> (r: Result<(), EscrowError>)
    ensures
        offer_made(
            program_address_of(offer_seeds(maker.bytes@, id), program_id.bytes@),
            *maker,
            id,
            *token_a_mint,
            token_a_offered_amount,
            *token_b_mint,
            token_b_wanted_amount,
            *old(source),
            *old(slot),
            r,
            *final(source),
            *final(slot),
        ),
{
    let derived = vault_authority(program_id, maker, id);
    open_offer(derived, maker, id, token_a_mint, token_a_offered_amount, token_b_mint, token_b_wanted_amount, source, slot)
}

} // verus!
