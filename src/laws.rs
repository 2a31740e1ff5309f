//! Properties that hold across the escrow's operations.
use crate::escrow::{instantiated, EscrowError, EscrowView, SpecifierView};
use crate::resource::{fungible_view, non_fungible_view, BucketView, LocalIdView};
use vstd::multiset::Multiset;
use vstd::prelude::*;

verus! {

broadcast use vstd::multiset::group_multiset_axioms;

/// An escrow asking for `amount` attos at `address`, satisfied with a bucket of
/// `supplied` attos of that resource, `amount <= supplied`: afterwards the
/// requested custody holds exactly `amount`, the caller keeps
/// `supplied - amount` and receives the whole offer, and the offered custody
/// is empty.
pub proof fn lemma_fungible_exchange(
    address: Seq<u8>,
    amount: nat,
    offered: BucketView,
    badge_resource: Seq<u8>,
    supplied: nat,
)
    requires
        amount <= u128::MAX,
        amount <= supplied,
    ensures
        ({
            let e = instantiated(
                SpecifierView::Fungible { address, amount },
                offered,
                badge_resource,
            );
            let b = fungible_view(address, supplied);
            &&& e.exchange_error(b) is None
            &&& e.exchanged().received == fungible_view(address, amount)
            &&& e.remainder(b) == fungible_view(address, (supplied - amount) as nat)
            &&& e.offered == offered
            &&& e.exchanged().offered.amount() == 0
        }),
{
}

/// An escrow asking for the unit `id` at `address`, satisfied with a bucket
/// of `items` that holds `id`: only that unit moves to the requested custody,
/// and all other units stay with the caller.
pub proof fn lemma_non_fungible_exchange(
    address: Seq<u8>,
    id: LocalIdView,
    offered: BucketView,
    badge_resource: Seq<u8>,
    items: Multiset<LocalIdView>,
)
    requires
        items.count(id) > 0,
    ensures
        ({
            let e = instantiated(
                SpecifierView::NonFungible { address, id },
                offered,
                badge_resource,
            );
            let b = non_fungible_view(address, items);
            &&& e.exchange_error(b) is None
            &&& e.exchanged().received == non_fungible_view(address, Multiset::singleton(id))
            &&& e.remainder(b) == non_fungible_view(address, items.remove(id))
            &&& e.offered == offered
            &&& e.exchanged().offered.amount() == 0
        }),
{
    assert(Multiset::<LocalIdView>::empty().add(Multiset::singleton(id)) =~= Multiset::singleton(
        id,
    ));
}

/// A bucket of another resource than the one requested, or of the other kind
/// of holding, is refused as a mismatch, whatever else holds of it.
pub proof fn lemma_kind_mismatch_rejected(e: EscrowView, b: BucketView)
    requires
        b.address != e.requested.address() || b.is_fungible() != (e.requested is Fungible),
    ensures
        e.exchange_error(b) == Some(EscrowError::AssetKindMismatch),
{
}

/// After a successful exchange on a fresh escrow, a withdrawal with the badge
/// hands over exactly what the exchange put in the requested custody, which is
/// empty afterwards.
pub proof fn lemma_withdraw_after_exchange(
    requested: SpecifierView,
    offered: BucketView,
    badge_resource: Seq<u8>,
    supplied: BucketView,
    badge: BucketView,
)
    requires
        requested.requested_part().amount() <= u128::MAX,
        instantiated(requested, offered, badge_resource).exchange_error(supplied) is None,
        instantiated(requested, offered, badge_resource).authorized(badge),
    ensures
        ({
            let e = instantiated(requested, offered, badge_resource).exchanged();
            &&& e.authorized(badge)
            &&& e.received == requested.requested_part()
            &&& e.withdrawn().received.amount() == 0
            &&& e.withdrawn().received == requested.empty_holding()
        }),
{
    match requested {
        SpecifierView::Fungible { .. } => {},
        SpecifierView::NonFungible { id, .. } => {
            assert(Multiset::<LocalIdView>::empty().add(Multiset::singleton(id))
                =~= Multiset::singleton(id));
        },
    }
}

/// Cancelling a fresh escrow with the badge it issued hands back exactly the
/// offer and burns the badge: no bucket authorizes anything afterwards.
pub proof fn lemma_cancel_before_exchange(
    requested: SpecifierView,
    offered: BucketView,
    badge_resource: Seq<u8>,
    badge_id: LocalIdView,
)
    ensures
        ({
            let e = instantiated(requested, offered, badge_resource);
            let badge = non_fungible_view(badge_resource, Multiset::singleton(badge_id));
            &&& e.authorized(badge)
            &&& e.offered == offered
            &&& e.canceled().offered.amount() == 0
            &&& badge.emptied().amount() == 0
            &&& forall|t: BucketView| !e.canceled().authorized(t)
        }),
{
}

/// A badge bucket of another resource, or an empty one, never authorizes a
/// withdrawal or a cancellation.
pub proof fn lemma_bad_credential_rejected(e: EscrowView, t: BucketView)
    requires
        t.address != e.badge_resource || t.amount() == 0,
    ensures
        !e.authorized(t),
{
}

} // verus!
