use crate::address::{derived_view, offer_seeds, program_address_of, same, vault_authority, Address};
use crate::state::{with_amount, Escrow, EscrowError, TokenAccount};
use vstd::prelude::*;

verus! {

/// The accounts of a take at the moment it runs: the taker's account of the
/// wanted asset, the maker's account of the wanted asset, and the taker's
/// account of the offered asset.
pub struct TakeAccounts {
    pub taker_b: TokenAccount,
    pub maker_b: TokenAccount,
    pub taker_a: TokenAccount,
}

/// The error, if any, with which a take is refused, checked in this order: no
/// escrow, or one whose authority is not what its maker and id derive; an
/// account of the wrong asset; an account of the wrong party; too small a
/// balance for the payment; a credit past the largest balance.
pub open spec fn take_offer_error(
    derived: Option<(Seq<u8>, u8)>,
    taker: Address,
    acc: TakeAccounts,
    slot: Option<Escrow>,
) -> Option<EscrowError> {
    match slot {
        None => Some(EscrowError::OfferNotFound),
        Some(e) => {
            let o = e.offer;
            if derived != Some((o.authority.bytes@, o.bump)) {
                Some(EscrowError::OfferNotFound)
            } else if !same(acc.taker_b.mint, o.token_b_mint) || !same(acc.maker_b.mint, o.token_b_mint)
                || !same(acc.taker_a.mint, o.token_a_mint) {
                Some(EscrowError::AssetMismatch)
            } else if !same(acc.maker_b.owner, o.maker) || !same(acc.taker_b.owner, taker) || !same(
                acc.taker_a.owner,
                taker,
            ) {
                Some(EscrowError::WrongOwner)
            } else if acc.taker_b.amount < o.token_b_wanted_amount {
                Some(EscrowError::InsufficientBalance)
            } else if acc.maker_b.amount + o.token_b_wanted_amount > u64::MAX || acc.taker_a.amount
                + e.vault > u64::MAX {
                Some(EscrowError::BalanceOverflow)
            } else {
                None
            }
        },
    }
}

/// The accounts after a successful take of `e`: the taker has paid the wanted
/// amount to the maker and received the whole vault.
pub open spec fn settled(e: Escrow, acc: TakeAccounts) -> TakeAccounts {
    TakeAccounts {
        taker_b: with_amount(acc.taker_b, acc.taker_b.amount - e.offer.token_b_wanted_amount),
        maker_b: with_amount(acc.maker_b, acc.maker_b.amount + e.offer.token_b_wanted_amount),
        taker_a: with_amount(acc.taker_a, acc.taker_a.amount + e.vault),
    }
}

/// What taking an offer does: on a refusal nothing changes; on success the
/// accounts are settled and the escrow, record and vault together, is gone.
pub open spec fn offer_taken(
    derived: Option<(Seq<u8>, u8)>,
    taker: Address,
    old_acc: TakeAccounts,
    old_slot: Option<Escrow>,
    r: Result<(), EscrowError>,
    new_acc: TakeAccounts,
    new_slot: Option<Escrow>,
) -> bool {
    match take_offer_error(derived, taker, old_acc, old_slot) {
        Some(e) => r == Err::<(), EscrowError>(e) && new_acc == old_acc && new_slot == old_slot,
        None => r is Ok && new_acc == settled(old_slot.unwrap(), old_acc) && new_slot is None,
    }
}

/// The three accounts of a take as one value.
pub open spec fn accounts(taker_b: TokenAccount, maker_b: TokenAccount, taker_a: TokenAccount) -> TakeAccounts {
    TakeAccounts { taker_b, maker_b, taker_a }
}

/// Settles the escrow in `slot` for `taker`, given what the derivation of the
/// vault authority from the offer's maker and id returned: pays the wanted
/// amount from `taker_b` to `maker_b`, releases the whole vault to `taker_a`,
/// and closes the escrow.
pub fn settle_offer(
    derived: Option<(Address, u8)>,
    taker: &Address,
    taker_b: &mut TokenAccount,
    maker_b: &mut TokenAccount,
    taker_a: &mut TokenAccount,
    slot: &mut Option<Escrow>,
) -> (r: Result<(), EscrowError>)
    ensures
        offer_taken(
            derived_view(derived),
            *taker,
            accounts(*old(taker_b), *old(maker_b), *old(taker_a)),
            *old(slot),
            r,
            accounts(*final(taker_b), *final(maker_b), *final(taker_a)),
            *final(slot),
        ),
{
    let e = match *slot {
        None => {
            return Err(EscrowError::OfferNotFound);
        },
        Some(e) => e,
    };
    let authority_matches = match derived {
        Some((a, b)) => a == e.offer.authority && b == e.offer.bump,
        None => false,
    };
    if !authority_matches {
        return Err(EscrowError::OfferNotFound);
    }
    if taker_b.mint != e.offer.token_b_mint || maker_b.mint != e.offer.token_b_mint || taker_a.mint
        != e.offer.token_a_mint {
        return Err(EscrowError::AssetMismatch);
    }
    if maker_b.owner != e.offer.maker || taker_b.owner != *taker || taker_a.owner != *taker {
        return Err(EscrowError::WrongOwner);
    }
    let wanted = e.offer.token_b_wanted_amount;
    if taker_b.amount < wanted {
        return Err(EscrowError::InsufficientBalance);
    }
    if maker_b.amount > u64::MAX - wanted || taker_a.amount > u64::MAX - e.vault {
        return Err(EscrowError::BalanceOverflow);
    }
    taker_b.amount = taker_b.amount - wanted;
    maker_b.amount = maker_b.amount + wanted;
    taker_a.amount = taker_a.amount + e.vault;
    *slot = None;
    Ok(())
}

/// Takes the offer in `slot` for `taker` under the program `program_id`:
/// recomputes the vault authority from the offer's maker and id, then settles
/// as `settle_offer` does. Either the payment, the release and the closing all
/// happen, or none does.
pub fn take_offer(
    program_id: &Address,
    taker: &Address,
    taker_b: &mut TokenAccount,
    maker_b: &mut TokenAccount,
    taker_a: &mut TokenAccount,
    slot: &mut Option<Escrow>,
) -> (r: Result<(), EscrowError>)
    ensures
        offer_taken(
            match *old(slot) {
                Some(e) => program_address_of(offer_seeds(e.offer.maker.bytes@, e.offer.id), program_id.bytes@),
                None => None,
            },
            *taker,
            accounts(*old(taker_b), *old(maker_b), *old(taker_a)),
            *old(slot),
            r,
            accounts(*final(taker_b), *final(maker_b), *final(taker_a)),
            *final(slot),
        ),
{
    let derived = match slot {
        Some(e) => vault_authority(program_id, &e.offer.maker, e.offer.id),
        None => None,
    };
    settle_offer(derived, taker, taker_b, maker_b, taker_a, slot)
}

} // verus!
