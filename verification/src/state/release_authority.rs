//! The release authority account: who settles matches, where fees go, and which
//! token mints matches may be played for.
use vstd::prelude::*;

use crate::pubkey::Pubkey;

verus! {

/// A token mint that matches may be played for, with the fee a player pays.
#[derive(Clone, Copy, Debug, Default, PartialEq)]
pub struct ReleaseAuthorityItem {
    pub mint: Pubkey,
    pub fee: u64,
}

impl ReleaseAuthorityItem {
    /// The entry of `mint` with fee `fee`.
    pub fn new(mint: Pubkey, fee: u64) -> (item: ReleaseAuthorityItem)
        ensures
            item.mint == mint,
            item.fee == fee,
    {
        ReleaseAuthorityItem { mint, fee }
    }

    /// The size of an entry in the account: the mint and the fee.
    pub fn space() -> (size: usize)
        ensures
            size == 40,
    {
        // No discriminator since this is a nested struct.
        32 + // mint
        8 // fee
    }
}

/// The data of the release authority account.
pub struct ReleaseAuthority {
    pub bump: u8,
    pub authority: Pubkey,
    pub treasury: Pubkey,
    pub approved_mints: Vec<ReleaseAuthorityItem>,
    pub fee_lamports_basis_points: u16,
}

/// Whether some entry of `items` is for `mint`.
pub open spec fn has_mint(items: Seq<ReleaseAuthorityItem>, mint: Seq<u8>) -> bool {
    exists|i: int| 0 <= i < items.len() && (#[trigger] items[i]).mint@ == mint
}

/// Whether `item` is the first entry of `items` for `mint`.
pub open spec fn is_first_with_mint(items: Seq<ReleaseAuthorityItem>, mint: Seq<u8>, item: ReleaseAuthorityItem) -> bool {
    exists|i: int|
        0 <= i < items.len() && items[i] == item && item.mint@ == mint && forall|j: int|
            0 <= j < i ==> (#[trigger] items[j]).mint@ != mint
}

/// The entries of `items` that are not for `mint`, in their order.
pub open spec fn without_mint(items: Seq<ReleaseAuthorityItem>, mint: Seq<u8>) -> Seq<ReleaseAuthorityItem> {
    items.filter(not_for_mint(mint))
}

/// Whether an entry is not for `mint`.
pub open spec fn not_for_mint(mint: Seq<u8>) -> spec_fn(ReleaseAuthorityItem) -> bool {
    |item: ReleaseAuthorityItem| item.mint@ != mint
}

/// Whether no two entries of `items` are for the same mint.
pub open spec fn mints_unique(items: Seq<ReleaseAuthorityItem>) -> bool {
    forall|i: int, j: int|
        0 <= i < items.len() && 0 <= j < items.len() && i != j ==> (#[trigger] items[i]).mint@
            != (#[trigger] items[j]).mint@
}

/// Whether `a` and `b` have the same bump, authority, treasury and lamport fee.
pub open spec fn same_settings(a: ReleaseAuthority, b: ReleaseAuthority) -> bool {
    &&& a.bump == b.bump
    &&& a.authority == b.authority
    &&& a.treasury == b.treasury
    &&& a.fee_lamports_basis_points == b.fee_lamports_basis_points
}

/// Appending an entry for a mint that has none keeps the mints unique.
pub proof fn lemma_push_keeps_mints_unique(items: Seq<ReleaseAuthorityItem>, item: ReleaseAuthorityItem)
    requires
        mints_unique(items),
        !has_mint(items, item.mint@),
    ensures
        mints_unique(items.push(item)),
{
    let pushed = items.push(item);
    assert forall|i: int, j: int|
        0 <= i < pushed.len() && 0 <= j < pushed.len() && i != j implies (#[trigger] pushed[i]).mint@
            != (#[trigger] pushed[j]).mint@ by {
        if i < items.len() && j < items.len() {
            assert(pushed[i] == items[i] && pushed[j] == items[j]);
        } else if i < items.len() {
            assert(pushed[i] == items[i]);
        } else {
            assert(pushed[j] == items[j]);
        }
    }
}

/// No entry of `without_mint(items, mint)` is for `mint`.
pub proof fn lemma_without_mint_removes(items: Seq<ReleaseAuthorityItem>, mint: Seq<u8>)
    ensures
        !has_mint(without_mint(items, mint), mint),
{
    broadcast use vstd::seq_lib::group_filter_ensures;

}

/// Removing the entries of a mint keeps the mints unique.
pub proof fn lemma_without_mint_keeps_mints_unique(items: Seq<ReleaseAuthorityItem>, mint: Seq<u8>)
    requires
        mints_unique(items),
    ensures
        mints_unique(without_mint(items, mint)),
    decreases items.len(),
{
    reveal(Seq::filter);
    if items.len() > 0 {
        let rest = items.drop_last();
        let last = items.last();
        assert forall|i: int, j: int|
            0 <= i < rest.len() && 0 <= j < rest.len() && i != j implies (#[trigger] rest[i]).mint@
                != (#[trigger] rest[j]).mint@ by {
            assert(rest[i] == items[i] && rest[j] == items[j]);
        }
        lemma_without_mint_keeps_mints_unique(rest, mint);
        let kept = without_mint(rest, mint);
        if last.mint@ != mint {
            assert forall|k: int| 0 <= k < kept.len() implies (#[trigger] kept[k]).mint@ != last.mint@ by {
                assert(kept.contains(kept[k]));
                rest.lemma_filter_contains_rev(not_for_mint(mint), kept[k]);
                let r = choose|r: int| 0 <= r < rest.len() && rest[r] == kept[k];
                assert(items[r] == rest[r]);
                assert(items[items.len() - 1] == last);
            }
            lemma_push_keeps_mints_unique(kept, last);
        }
    }
}

/// With no entry for `mint`, removing the entries of `mint` changes nothing.
pub proof fn lemma_without_absent_mint(items: Seq<ReleaseAuthorityItem>, mint: Seq<u8>)
    requires
        !has_mint(items, mint),
    ensures
        without_mint(items, mint) == items,
    decreases items.len(),
{
    reveal(Seq::filter);
    if items.len() > 0 {
        let rest = items.drop_last();
        assert forall|i: int| 0 <= i < rest.len() implies (#[trigger] rest[i]).mint@ != mint by {
            assert(rest[i] == items[i]);
        }
        lemma_without_absent_mint(rest, mint);
        assert(items.last() == items[items.len() - 1]);
        assert(rest.push(items.last()) =~= items);
    }
}

impl ReleaseAuthority {
    /// A release authority with no approved mint.
    pub fn new(bump: u8, authority: Pubkey, treasury: Pubkey, fee_lamports_basis_points: u16) -> (ra: ReleaseAuthority)
        ensures
            ra.bump == bump,
            ra.authority == authority,
            ra.treasury == treasury,
            ra.approved_mints@ == Seq::<ReleaseAuthorityItem>::empty(),
            ra.fee_lamports_basis_points == fee_lamports_basis_points,
    {
        ReleaseAuthority {
            bump,
            authority,
            approved_mints: Vec::new(),
            treasury,
            fee_lamports_basis_points,
        }
    }

    /// Sets the treasury and the fee on lamport matches.
    pub fn update(&mut self, treasury: Pubkey, fee_lamports_basis_points: u16)
        ensures
            final(self).bump == old(self).bump,
            final(self).authority == old(self).authority,
            final(self).treasury == treasury,
            final(self).approved_mints@ == old(self).approved_mints@,
            final(self).fee_lamports_basis_points == fee_lamports_basis_points,
    {
        self.treasury = treasury;
        self.fee_lamports_basis_points = fee_lamports_basis_points;
    }

    /// Appends an entry for `mint` with fee `fee`.
    pub fn approve_fee_mint(&mut self, mint: Pubkey, fee: u64)
        ensures
            final(self).bump == old(self).bump,
            final(self).authority == old(self).authority,
            final(self).treasury == old(self).treasury,
            final(self).approved_mints@ == old(self).approved_mints@.push(
                ReleaseAuthorityItem { mint, fee },
            ),
            final(self).fee_lamports_basis_points == old(self).fee_lamports_basis_points,
    {
        self.approved_mints.push(ReleaseAuthorityItem::new(mint, fee));
    }

    /// Removes every entry for `mint`, keeping the others in their order.
    pub fn revoke_fee_mint(&mut self, mint: Pubkey)
        ensures
            final(self).bump == old(self).bump,
            final(self).authority == old(self).authority,
            final(self).treasury == old(self).treasury,
            final(self).approved_mints@ == without_mint(old(self).approved_mints@, mint@),
            final(self).fee_lamports_basis_points == old(self).fee_lamports_basis_points,
    {
        let ghost items = self.approved_mints@;
        let mut kept: Vec<ReleaseAuthorityItem> = Vec::new();
        let n = self.approved_mints.len();
        let mut i: usize = 0;
        while i < n
            invariant
                n == items.len(),
                self.approved_mints@ == items,
                i <= n,
                kept@ == without_mint(items.take(i as int), mint@),
            decreases n - i,
        {
            let item = self.approved_mints[i];
            proof {
                reveal(Seq::filter);
                assert(items.take(i + 1).drop_last() =~= items.take(i as int));
            }
            if item.mint != mint {
                kept.push(item);
            }
            i = i + 1;
        }
        assert(items.take(n as int) =~= items);
        self.approved_mints = kept;
    }

    /// Whether some entry is for `mint`.
    pub fn is_fee_mint_approved(&self, mint: &Pubkey) -> (approved: bool)
        ensures
            approved == has_mint(self.approved_mints@, mint@),
    {
        let n = self.approved_mints.len();
        let mut i: usize = 0;
        while i < n
            invariant
                n == self.approved_mints@.len(),
                i <= n,
                forall|j: int| 0 <= j < i ==> (#[trigger] self.approved_mints@[j]).mint@ != mint@,
            decreases n - i,
        {
            if self.approved_mints[i].mint == *mint {
                return true;
            }
            i = i + 1;
        }
        false
    }

    /// The first entry for `mint`, if any.
    pub fn find_fee_mint(&self, mint: &Pubkey) -> (found: Option<ReleaseAuthorityItem>)
        ensures
            found is None <==> !has_mint(self.approved_mints@, mint@),
            found matches Some(item) ==> is_first_with_mint(self.approved_mints@, mint@, item),
    {
        let n = self.approved_mints.len();
        let mut i: usize = 0;
        while i < n
            invariant
                n == self.approved_mints@.len(),
                i <= n,
                forall|j: int| 0 <= j < i ==> (#[trigger] self.approved_mints@[j]).mint@ != mint@,
            decreases n - i,
        {
            if self.approved_mints[i].mint == *mint {
                return Some(self.approved_mints[i]);
            }
            i = i + 1;
        }
        None
    }

    /// The size of the account when it holds at most `max_approved_mints` entries.
    pub fn space(max_approved_mints: usize) -> (size: usize)
        requires
            79 + 40 * max_approved_mints <= usize::MAX,
        ensures
            size == 79 + 40 * max_approved_mints,
    {
        8 + // discriminator
        1 + // bump
        32 + // authority
        32 + // treasury
        4 + ReleaseAuthorityItem::space() * max_approved_mints + // approved_mints
        2 // fee
    }
}

} // verus!
