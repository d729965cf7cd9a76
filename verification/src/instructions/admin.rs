//! Instructions of the release authority: creating it, changing its treasury and fee,
//! and approving or revoking the token mints that matches may be played for.
use vstd::prelude::*;

use crate::errors::MadscapeError;
use crate::pubkey::Pubkey;
use crate::state::release_authority::{
    has_mint, is_first_with_mint, lemma_push_keeps_mints_unique,
    lemma_without_mint_keeps_mints_unique, lemma_without_mint_removes, mints_unique,
    same_settings, without_mint,
};
use crate::state::{ReleaseAuthority, ReleaseAuthorityItem};

verus! {

/// Creates the release authority of `authority`, with treasury `treasury`, a fee of
/// `fee_lamports_basis_points` on lamport matches and no approved mint.
pub fn create_release_authority(
    bump: u8,
    authority: Pubkey,
    treasury: Pubkey,
    fee_lamports_basis_points: u16,
) -> (release_authority: ReleaseAuthority)
    ensures
        release_authority.bump == bump,
        release_authority.authority == authority,
        release_authority.treasury == treasury,
        release_authority.approved_mints@ == Seq::<ReleaseAuthorityItem>::empty(),
        release_authority.fee_lamports_basis_points == fee_lamports_basis_points,
        mints_unique(release_authority.approved_mints@),
{
    ReleaseAuthority::new(bump, authority, treasury, fee_lamports_basis_points)
}

/// Approves `mint` with fee `fee`; refused when `mint` is approved already.
pub fn approve_fee_mint(release_authority: &mut ReleaseAuthority, mint: Pubkey, fee: u64) -> (result: Result<(), MadscapeError>)
    ensures
        same_settings(*final(release_authority), *old(release_authority)),
        has_mint(old(release_authority).approved_mints@, mint@) ==> {
            &&& result == Err::<(), MadscapeError>(MadscapeError::FeeMintAlreadyApproved)
            &&& final(release_authority).approved_mints@ == old(release_authority).approved_mints@
        },
        !has_mint(old(release_authority).approved_mints@, mint@) ==> {
            &&& result == Ok::<(), MadscapeError>(())
            &&& final(release_authority).approved_mints@ == old(
                release_authority,
            ).approved_mints@.push(ReleaseAuthorityItem { mint, fee })
        },
        // Once approved, the mint is found with the fee it was approved with.
        result is Ok ==> is_first_with_mint(
            final(release_authority).approved_mints@,
            mint@,
            ReleaseAuthorityItem { mint, fee },
        ),
        // No mint is ever approved twice.
        mints_unique(old(release_authority).approved_mints@) ==> mints_unique(
            final(release_authority).approved_mints@,
        ),
{
    if release_authority.is_fee_mint_approved(&mint) {
        return Err(MadscapeError::FeeMintAlreadyApproved);
    }
    let ghost items = release_authority.approved_mints@;
    release_authority.approve_fee_mint(mint, fee);
    proof {
        let item = ReleaseAuthorityItem { mint, fee };
        let pushed = items.push(item);
        assert(pushed[items.len() as int] == item);
        assert forall|j: int| 0 <= j < items.len() implies (#[trigger] pushed[j]).mint@ != mint@ by {
            assert(pushed[j] == items[j]);
        }
        if mints_unique(items) {
            lemma_push_keeps_mints_unique(items, item);
        }
    }
    Ok(())
}

/// Revokes `mint`: removes its entries; refused when `mint` is not approved.
pub fn revoke_fee_mint(release_authority: &mut ReleaseAuthority, mint: Pubkey) -> (result: Result<(), MadscapeError>)
    ensures
        same_settings(*final(release_authority), *old(release_authority)),
        !has_mint(old(release_authority).approved_mints@, mint@) ==> {
            &&& result == Err::<(), MadscapeError>(MadscapeError::FeeMintNotApproved)
            &&& final(release_authority).approved_mints@ == old(release_authority).approved_mints@
        },
        has_mint(old(release_authority).approved_mints@, mint@) ==> {
            &&& result == Ok::<(), MadscapeError>(())
            &&& final(release_authority).approved_mints@ == without_mint(
                old(release_authority).approved_mints@,
                mint@,
            )
        },
        // Once revoked, the mint is not approved.
        result is Ok ==> !has_mint(final(release_authority).approved_mints@, mint@),
        // No mint is ever approved twice.
        mints_unique(old(release_authority).approved_mints@) ==> mints_unique(
            final(release_authority).approved_mints@,
        ),
{
    if !release_authority.is_fee_mint_approved(&mint) {
        return Err(MadscapeError::FeeMintNotApproved);
    }
    let ghost items = release_authority.approved_mints@;
    release_authority.revoke_fee_mint(mint);
    proof {
        lemma_without_mint_removes(items, mint@);
        if mints_unique(items) {
            lemma_without_mint_keeps_mints_unique(items, mint@);
        }
    }
    Ok(())
}

/// Sets the treasury of the release authority and its fee on lamport matches.
pub fn update_release_authority(
    release_authority: &mut ReleaseAuthority,
    treasury: Pubkey,
    fee_lamports_basis_points: u16,
)
    ensures
        final(release_authority).bump == old(release_authority).bump,
        final(release_authority).authority == old(release_authority).authority,
        final(release_authority).treasury == treasury,
        final(release_authority).approved_mints@ == old(release_authority).approved_mints@,
        final(release_authority).fee_lamports_basis_points == fee_lamports_basis_points,
{
    release_authority.update(treasury, fee_lamports_basis_points);
}

} // verus!
