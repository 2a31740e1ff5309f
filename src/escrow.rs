//! The escrow: one offered resource held until a counterparty supplies the
//! requested one, with a badge whose holder may withdraw or cancel.
use crate::resource::{
    fungible_view, non_fungible_view, Bucket, BucketView, LocalIdView, NonFungibleLocalId,
    ResourceAddress,
};
use vstd::multiset::Multiset;
use vstd::prelude::*;

verus! {

broadcast use vstd::multiset::group_multiset_axioms;

/// What the escrow asks for in return for the offered resource.
pub enum ResourceSpecifier {
    Fungible { resource_address: ResourceAddress, amount: u128 },
    NonFungible { resource_address: ResourceAddress, non_fungible_local_id: NonFungibleLocalId },
}

pub enum SpecifierView {
    Fungible { address: Seq<u8>, amount: nat },
    NonFungible { address: Seq<u8>, id: LocalIdView },
}

impl SpecifierView {
    pub open spec fn address(self) -> Seq<u8> {
        match self {
            SpecifierView::Fungible { address, .. } => address,
            SpecifierView::NonFungible { address, .. } => address,
        }
    }

    /// An empty holding of the requested resource.
    pub open spec fn empty_holding(self) -> BucketView {
        match self {
            SpecifierView::Fungible { address, .. } => fungible_view(address, 0),
            SpecifierView::NonFungible { address, .. } => non_fungible_view(
                address,
                Multiset::empty(),
            ),
        }
    }

    /// Why `b` does not supply what is requested, if it does not: another
    /// resource or kind of holding, too few attos, or the unit missing.
    pub open spec fn supply_error(self, b: BucketView) -> Option<EscrowError> {
        match self {
            SpecifierView::Fungible { address, amount } => {
                if b.address != address || !b.is_fungible() {
                    Some(EscrowError::AssetKindMismatch)
                } else if b.amount() < amount {
                    Some(EscrowError::InsufficientAmount)
                } else {
                    None
                }
            },
            SpecifierView::NonFungible { address, id } => {
                if b.address != address || b.is_fungible() {
                    Some(EscrowError::AssetKindMismatch)
                } else if !b.contains_id(id) {
                    Some(EscrowError::ItemNotFound)
                } else {
                    None
                }
            },
        }
    }

    /// Exactly what is requested, as a holding.
    pub open spec fn requested_part(self) -> BucketView {
        match self {
            SpecifierView::Fungible { address, amount } => fungible_view(address, amount),
            SpecifierView::NonFungible { address, id } => non_fungible_view(
                address,
                Multiset::singleton(id),
            ),
        }
    }
}

impl View for ResourceSpecifier {
    type V = SpecifierView;

    open spec fn view(&self) -> SpecifierView {
        match self {
            ResourceSpecifier::Fungible { resource_address, amount } => SpecifierView::Fungible {
                address: resource_address@,
                amount: *amount as nat,
            },
            ResourceSpecifier::NonFungible { resource_address, non_fungible_local_id } =>
                SpecifierView::NonFungible {
                address: resource_address@,
                id: non_fungible_local_id@,
            },
        }
    }
}

impl ResourceSpecifier {
    /// Checks that `bucket` supplies what is requested.
    pub fn check_supply(&self, bucket: &Bucket) -> (r: Result<(), EscrowError>)
        ensures
            match r {
                Ok(()) => self@.supply_error(bucket@) is None,
                Err(e) => self@.supply_error(bucket@) == Some(e),
            },
    {
        match self {
            ResourceSpecifier::Fungible { resource_address, amount } => {
                if !bucket.resource_address().equals(resource_address) || !bucket.is_fungible() {
                    return Err(EscrowError::AssetKindMismatch);
                }
                if bucket.amount() < *amount {
                    return Err(EscrowError::InsufficientAmount);
                }
            },
            ResourceSpecifier::NonFungible { resource_address, non_fungible_local_id } => {
                if !bucket.resource_address().equals(resource_address) || bucket.is_fungible() {
                    return Err(EscrowError::AssetKindMismatch);
                }
                if !bucket.contains_non_fungible(non_fungible_local_id) {
                    return Err(EscrowError::ItemNotFound);
                }
            },
        }
        Ok(())
    }

    pub fn get_resource_address(&self) -> (r: ResourceAddress)
        ensures
            r@ == self@.address(),
    {
        match self {
            ResourceSpecifier::Fungible { resource_address, .. } => *resource_address,
            ResourceSpecifier::NonFungible { resource_address, .. } => *resource_address,
        }
    }
}

/// The data carried by an escrow's badge: the resource that was offered.
#[derive(Clone, Copy)]
pub struct EscrowBadge {
    pub offered_resource: ResourceAddress,
}

#[derive(Clone, Copy, Debug, PartialEq, Eq, Structural)]
pub enum EscrowError {
    /// The presented resource is not the one requested.
    AssetKindMismatch,
    /// Fewer attos were presented than requested.
    InsufficientAmount,
    /// The presented bucket lacks the requested non-fungible unit.
    ItemNotFound,
    /// The presented badge is of another resource, empty, or burned.
    InvalidCredential,
    /// The requested custody cannot count the amount it would then hold.
    AmountOverflow,
}

pub struct EscrowView {
    pub requested: SpecifierView,
    pub offered: BucketView,
    pub received: BucketView,
    pub badge_resource: Seq<u8>,
    pub badge_offered: Seq<u8>,
    pub badge_burned: bool,
}

impl EscrowView {
    /// The requested custody holds the requested resource, in its kind of
    /// holding, and is empty for as long as the offer is held.
    pub open spec fn wf(self) -> bool {
        &&& self.received.address == self.requested.address()
        &&& self.received.is_fungible() == (self.requested is Fungible)
        &&& self.offered.amount() > 0 ==> self.received.amount() == 0
    }

    /// Why an exchange with `b` is refused, if it is.
    pub open spec fn exchange_error(self, b: BucketView) -> Option<EscrowError> {
        match self.requested.supply_error(b) {
            Some(e) => Some(e),
            None => if self.requested is Fungible && self.received.amount()
                + self.requested.requested_part().amount() > u128::MAX {
                Some(EscrowError::AmountOverflow)
            } else {
                None
            },
        }
    }

    /// What is left of the caller's bucket `b` once the requested part is taken.
    pub open spec fn remainder(self, b: BucketView) -> BucketView {
        match self.requested {
            SpecifierView::Fungible { amount, .. } => fungible_view(
                b.address,
                (b.amount() - amount) as nat,
            ),
            SpecifierView::NonFungible { id, .. } => non_fungible_view(
                b.address,
                b.holding->NonFungible_0.remove(id),
            ),
        }
    }

    /// The escrow after a successful exchange.
    pub open spec fn exchanged(self) -> EscrowView {
        EscrowView {
            offered: self.offered.emptied(),
            received: self.received.joined(self.requested.requested_part()),
            ..self
        }
    }

    /// Whether the badge bucket `t` authorizes withdrawal or cancellation.
    pub open spec fn authorized(self, t: BucketView) -> bool {
        credential_valid(self.badge_resource, self.badge_burned, t)
    }

    /// The escrow after a withdrawal.
    pub open spec fn withdrawn(self) -> EscrowView {
        EscrowView { received: self.received.emptied(), ..self }
    }

    /// The escrow after a cancellation.
    pub open spec fn canceled(self) -> EscrowView {
        EscrowView { offered: self.offered.emptied(), badge_burned: true, ..self }
    }
}

/// The escrow created for request `requested` and offer `offered`, with its
/// badge of resource `badge_resource`.
pub open spec fn instantiated(
    requested: SpecifierView,
    offered: BucketView,
    badge_resource: Seq<u8>,
) -> EscrowView {
    EscrowView {
        requested,
        offered,
        received: requested.empty_holding(),
        badge_resource,
        badge_offered: offered.address,
        badge_burned: false,
    }
}

/// A bucket `t` is a valid credential for badges of resource `badge_resource`
/// when those have not been burned, `t` holds that resource, and is not empty.
pub open spec fn credential_valid(badge_resource: Seq<u8>, burned: bool, t: BucketView) -> bool {
    &&& !burned
    &&& t.address == badge_resource
    &&& t.amount() > 0
}

/// Checks that `token` is a valid credential for badges of resource `escrow_nft`.
pub fn check_credential(escrow_nft: &ResourceAddress, burned: bool, token: &Bucket) -> (r: Result<
    (),
    EscrowError,
>)
    ensures
        r is Ok <==> credential_valid(escrow_nft@, burned, token@),
        r is Err ==> r == Err::<(), EscrowError>(EscrowError::InvalidCredential),
{
    if burned || !token.resource_address().equals(escrow_nft) || token.is_empty() {
        Err(EscrowError::InvalidCredential)
    } else {
        Ok(())
    }
}

pub struct Escrow {
    requested_resource: ResourceSpecifier,
    offered_resource: Bucket,
    requested_resource_vault: Bucket,
    escrow_nft: ResourceAddress,
    badge: EscrowBadge,
    badge_burned: bool,
}

impl View for Escrow {
    type V = EscrowView;

    closed spec fn view(&self) -> EscrowView {
        EscrowView {
            requested: self.requested_resource@,
            offered: self.offered_resource@,
            received: self.requested_resource_vault@,
            badge_resource: self.escrow_nft@,
            badge_offered: self.badge.offered_resource@,
            badge_burned: self.badge_burned,
        }
    }
}

impl Escrow {
    /// Takes `offered_resource` into custody against `requested_resource`.
    /// `escrow_nft` is the badge resource created for this escrow and
    /// `badge_id` the identifier of its one badge, which is handed back.
    pub fn instantiate_escrow(
        requested_resource: ResourceSpecifier,
        offered_resource: Bucket,
        escrow_nft: ResourceAddress,
        badge_id: NonFungibleLocalId,
    ) -> (r: (Escrow, Bucket))
        ensures
            r.0@ == instantiated(requested_resource@, offered_resource@, escrow_nft@),
            r.0@.wf(),
            r.1@ == non_fungible_view(escrow_nft@, Multiset::singleton(badge_id@)),
    {
        let requested_resource_vault = match &requested_resource {
            ResourceSpecifier::Fungible { resource_address, .. } => Bucket::new_fungible(
                *resource_address,
                0,
            ),
            ResourceSpecifier::NonFungible { resource_address, .. } => {
                let ids: Vec<NonFungibleLocalId> = Vec::new();
                let v = Bucket::new_non_fungible(*resource_address, ids);
                proof {
                    crate::resource::lemma_no_ids(ids@);
                }
                v
            },
        };
        let badge = EscrowBadge { offered_resource: offered_resource.resource_address() };
        let mut badge_ids: Vec<NonFungibleLocalId> = Vec::new();
        badge_ids.push(badge_id);
        proof {
            crate::resource::lemma_one_id(badge_ids@);
        }
        let badges = Bucket::new_non_fungible(escrow_nft, badge_ids);
        let escrow = Escrow {
            requested_resource,
            offered_resource,
            requested_resource_vault,
            escrow_nft,
            badge,
            badge_burned: false,
        };
        (escrow, badges)
    }

    /// Supplies the requested resource out of `bucket_of_resource` and hands
    /// back everything offered. Only the requested part leaves the caller's
    /// bucket; on an error nothing changes.
    pub fn exchange(&mut self, bucket_of_resource: &mut Bucket) -> (r: Result<Bucket, EscrowError>)
        requires
            old(self)@.wf(),
        ensures
            final(self)@.wf(),
            match r {
                Ok(out) => {
                    &&& old(self)@.exchange_error(old(bucket_of_resource)@) is None
                    &&& out@ == old(self)@.offered
                    &&& final(self)@ == old(self)@.exchanged()
                    &&& final(bucket_of_resource)@ == old(self)@.remainder(
                        old(bucket_of_resource)@,
                    )
                },
                Err(e) => {
                    &&& old(self)@.exchange_error(old(bucket_of_resource)@) == Some(e)
                    &&& final(self)@ == old(self)@
                    &&& final(bucket_of_resource)@ == old(bucket_of_resource)@
                },
            },
    {
        self.requested_resource.check_supply(bucket_of_resource)?;
        match &self.requested_resource {
            ResourceSpecifier::Fungible { amount, .. } => {
                let amount = *amount;
                if self.requested_resource_vault.amount() > u128::MAX - amount {
                    return Err(EscrowError::AmountOverflow);
                }
                let part = bucket_of_resource.take(amount);
                self.requested_resource_vault.put(part);
            },
            ResourceSpecifier::NonFungible { non_fungible_local_id, .. } => {
                let part = bucket_of_resource.take_non_fungible(non_fungible_local_id);
                self.requested_resource_vault.put(part);
            },
        }
        Ok(self.offered_resource.take_all())
    }

    /// Hands the holder of the badge what the exchange brought in.
    /// The badge stays with its holder.
    pub fn withdraw_resource(&mut self, escrow_nft: &Bucket) -> (r: Result<Bucket, EscrowError>)
        requires
            old(self)@.wf(),
        ensures
            final(self)@.wf(),
            match r {
                Ok(out) => {
                    &&& old(self)@.authorized(escrow_nft@)
                    &&& out@ == old(self)@.received
                    &&& final(self)@ == old(self)@.withdrawn()
                },
                Err(e) => {
                    &&& !old(self)@.authorized(escrow_nft@)
                    &&& e == EscrowError::InvalidCredential
                    &&& final(self)@ == old(self)@
                },
            },
    {
        self.verify_escrow_badge(escrow_nft)?;
        Ok(self.requested_resource_vault.take_all())
    }

    /// Burns the badge in `escrow_nft` and hands back everything offered.
    pub fn cancel_escrow(&mut self, escrow_nft: &mut Bucket) -> (r: Result<Bucket, EscrowError>)
        requires
            old(self)@.wf(),
        ensures
            final(self)@.wf(),
            match r {
                Ok(out) => {
                    &&& old(self)@.authorized(old(escrow_nft)@)
                    &&& out@ == old(self)@.offered
                    &&& final(self)@ == old(self)@.canceled()
                    &&& final(escrow_nft)@ == old(escrow_nft)@.emptied()
                },
                Err(e) => {
                    &&& !old(self)@.authorized(old(escrow_nft)@)
                    &&& e == EscrowError::InvalidCredential
                    &&& final(self)@ == old(self)@
                    &&& final(escrow_nft)@ == old(escrow_nft)@
                },
            },
    {
        self.verify_escrow_badge(escrow_nft)?;
        // Burning: the badge leaves the caller's bucket and is dropped.
        let _burned = escrow_nft.take_all();
        self.badge_burned = true;
        Ok(self.offered_resource.take_all())
    }

    pub fn requested_resource(&self) -> (r: &ResourceSpecifier)
        ensures
            r@ == self@.requested,
    {
        &self.requested_resource
    }

    /// The custody of the offered resource.
    pub fn offered_resource(&self) -> (r: &Bucket)
        ensures
            r@ == self@.offered,
    {
        &self.offered_resource
    }

    /// The custody of what the exchange brought in.
    pub fn requested_resource_vault(&self) -> (r: &Bucket)
        ensures
            r@ == self@.received,
    {
        &self.requested_resource_vault
    }

    /// The resource of this escrow's badge.
    pub fn escrow_nft(&self) -> (r: ResourceAddress)
        ensures
            r@ == self@.badge_resource,
    {
        self.escrow_nft
    }

    /// The data carried by this escrow's badge.
    pub fn badge(&self) -> (r: EscrowBadge)
        ensures
            r.offered_resource@ == self@.badge_offered,
    {
        self.badge
    }

    /// Whether the badge has been burned by a cancellation.
    pub fn is_badge_burned(&self) -> (r: bool)
        ensures
            r == self@.badge_burned,
    {
        self.badge_burned
    }

    /// Checks that `escrow_nft` holds this escrow's live badge.
    fn verify_escrow_badge(&self, escrow_nft: &Bucket) -> (r: Result<(), EscrowError>)
        ensures
            r is Ok <==> self@.authorized(escrow_nft@),
            r is Err ==> r == Err::<(), EscrowError>(EscrowError::InvalidCredential),
    {
        check_credential(&self.escrow_nft, self.badge_burned, escrow_nft)
    }
}

} // verus!
