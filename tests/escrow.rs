use escrow::escrow::{Escrow, EscrowError, ResourceSpecifier};
use escrow::resource::{bytes_equal, Bucket, NonFungibleLocalId, ResourceAddress, ATTOS_PER_UNIT};

fn address(tag: u8) -> ResourceAddress {
    ResourceAddress::new([tag; 30])
}

fn units(n: u128) -> u128 {
    n * ATTOS_PER_UNIT
}

const X: u8 = 1;
const Y: u8 = 2;
const Z: u8 = 3;
const BADGE: u8 = 9;

fn badge_id() -> NonFungibleLocalId {
    NonFungibleLocalId::Ruid([7; 32])
}

fn fungible_escrow(requested: u128, offered: u128) -> (Escrow, Bucket) {
    Escrow::instantiate_escrow(
        ResourceSpecifier::Fungible { resource_address: address(X), amount: requested },
        Bucket::new_fungible(address(Y), offered),
        address(BADGE),
        badge_id(),
    )
}

fn non_fungible_escrow(id: u64, offered: u128) -> (Escrow, Bucket) {
    Escrow::instantiate_escrow(
        ResourceSpecifier::NonFungible {
            resource_address: address(Z),
            non_fungible_local_id: NonFungibleLocalId::Integer(id),
        },
        Bucket::new_fungible(address(Y), offered),
        address(BADGE),
        badge_id(),
    )
}

#[test]
fn instantiate_keeps_offer_and_issues_one_badge() {
    let (escrow, badge) = fungible_escrow(units(100), units(1));
    assert_eq!(escrow.offered_resource().amount(), units(1));
    assert!(escrow.offered_resource().resource_address().equals(&address(Y)));
    assert_eq!(escrow.requested_resource_vault().amount(), 0);
    assert!(escrow.requested_resource_vault().resource_address().equals(&address(X)));
    assert!(escrow.requested_resource_vault().is_fungible());
    assert!(badge.resource_address().equals(&address(BADGE)));
    assert_eq!(badge.amount(), 1);
    assert!(badge.contains_non_fungible(&badge_id()));
    assert!(escrow.badge().offered_resource.equals(&address(Y)));
    assert!(escrow.escrow_nft().equals(&address(BADGE)));
    assert!(!escrow.is_badge_burned());
}

#[test]
fn non_fungible_request_gets_non_fungible_custody() {
    let (escrow, _badge) = non_fungible_escrow(7, units(5));
    assert!(!escrow.requested_resource_vault().is_fungible());
    assert!(escrow.requested_resource_vault().is_empty());
    assert!(escrow.requested_resource().get_resource_address().equals(&address(Z)));
}

#[test]
fn fungible_exchange_then_withdraw() {
    let (mut escrow, badge) = fungible_escrow(units(100), units(1));
    let mut payment = Bucket::new_fungible(address(X), units(150));
    let out = escrow.exchange(&mut payment).unwrap();
    assert!(out.resource_address().equals(&address(Y)));
    assert_eq!(out.amount(), units(1));
    assert_eq!(payment.amount(), units(50));
    assert!(payment.resource_address().equals(&address(X)));
    assert_eq!(escrow.requested_resource_vault().amount(), units(100));
    assert!(escrow.offered_resource().is_empty());

    let received = escrow.withdraw_resource(&badge).unwrap();
    assert!(received.resource_address().equals(&address(X)));
    assert_eq!(received.amount(), units(100));
    assert!(escrow.requested_resource_vault().is_empty());
    assert_eq!(badge.amount(), 1);
}

#[test]
fn fungible_exchange_with_exact_amount_leaves_nothing() {
    let (mut escrow, _badge) = fungible_escrow(units(3), units(10));
    let mut payment = Bucket::new_fungible(address(X), units(3));
    let out = escrow.exchange(&mut payment).unwrap();
    assert_eq!(out.amount(), units(10));
    assert!(payment.is_empty());
    assert_eq!(escrow.requested_resource_vault().amount(), units(3));
}

#[test]
fn non_fungible_exchange_moves_only_requested_unit() {
    let (mut escrow, _badge) = non_fungible_escrow(7, units(5));
    let mut payment = Bucket::new_non_fungible(
        address(Z),
        vec![
            NonFungibleLocalId::Integer(3),
            NonFungibleLocalId::Integer(7),
            NonFungibleLocalId::String("seven".to_string()),
        ],
    );
    let out = escrow.exchange(&mut payment).unwrap();
    assert_eq!(out.amount(), units(5));
    assert_eq!(payment.amount(), 2);
    assert!(!payment.contains_non_fungible(&NonFungibleLocalId::Integer(7)));
    assert!(payment.contains_non_fungible(&NonFungibleLocalId::Integer(3)));
    assert!(payment.contains_non_fungible(&NonFungibleLocalId::String("seven".to_string())));
    let vault = escrow.requested_resource_vault();
    assert_eq!(vault.amount(), 1);
    assert!(vault.contains_non_fungible(&NonFungibleLocalId::Integer(7)));
}

#[test]
fn exchange_with_wrong_resource_changes_nothing() {
    let (mut escrow, _badge) = fungible_escrow(units(100), units(1));
    let mut payment = Bucket::new_fungible(address(Z), units(500));
    assert_eq!(escrow.exchange(&mut payment).err(), Some(EscrowError::AssetKindMismatch));
    assert_eq!(payment.amount(), units(500));
    assert_eq!(escrow.offered_resource().amount(), units(1));
    assert!(escrow.requested_resource_vault().is_empty());
}

#[test]
fn exchange_with_wrong_kind_of_holding_is_mismatch() {
    let (mut escrow, _badge) = fungible_escrow(1, units(1));
    let mut payment = Bucket::new_non_fungible(address(X), vec![NonFungibleLocalId::Integer(1)]);
    assert_eq!(escrow.exchange(&mut payment).err(), Some(EscrowError::AssetKindMismatch));
    assert_eq!(payment.amount(), 1);

    let (mut nf_escrow, _nf_badge) = non_fungible_escrow(7, units(5));
    let mut coins = Bucket::new_fungible(address(Z), units(7));
    assert_eq!(nf_escrow.exchange(&mut coins).err(), Some(EscrowError::AssetKindMismatch));
    let mut other = Bucket::new_non_fungible(address(X), vec![NonFungibleLocalId::Integer(7)]);
    assert_eq!(nf_escrow.exchange(&mut other).err(), Some(EscrowError::AssetKindMismatch));
    assert_eq!(nf_escrow.offered_resource().amount(), units(5));
}

#[test]
fn exchange_with_too_little_is_insufficient() {
    let (mut escrow, _badge) = fungible_escrow(units(100), units(1));
    let mut payment = Bucket::new_fungible(address(X), units(100) - 1);
    assert_eq!(escrow.exchange(&mut payment).err(), Some(EscrowError::InsufficientAmount));
    assert_eq!(payment.amount(), units(100) - 1);
    assert_eq!(escrow.offered_resource().amount(), units(1));
}

#[test]
fn exchange_without_requested_unit_is_not_found() {
    let (mut escrow, _badge) = non_fungible_escrow(7, units(5));
    let mut payment = Bucket::new_non_fungible(
        address(Z),
        vec![NonFungibleLocalId::Integer(8), NonFungibleLocalId::Bytes(vec![7])],
    );
    assert_eq!(escrow.exchange(&mut payment).err(), Some(EscrowError::ItemNotFound));
    assert_eq!(payment.amount(), 2);
    assert!(escrow.requested_resource_vault().is_empty());
}

#[test]
fn exchange_beyond_custody_capacity_overflows() {
    let (mut escrow, _badge) = fungible_escrow(u128::MAX, 4);
    let mut first = Bucket::new_fungible(address(X), u128::MAX);
    let out = escrow.exchange(&mut first).unwrap();
    assert_eq!(out.amount(), 4);
    let mut second = Bucket::new_fungible(address(X), u128::MAX);
    assert_eq!(escrow.exchange(&mut second).err(), Some(EscrowError::AmountOverflow));
    assert_eq!(second.amount(), u128::MAX);
    assert_eq!(escrow.requested_resource_vault().amount(), u128::MAX);
}

#[test]
fn second_exchange_returns_empty_offer() {
    let (mut escrow, _badge) = fungible_escrow(units(1), units(2));
    let mut payment = Bucket::new_fungible(address(X), units(2));
    assert_eq!(escrow.exchange(&mut payment).unwrap().amount(), units(2));
    let again = escrow.exchange(&mut payment).unwrap();
    assert!(again.is_empty());
    assert!(again.resource_address().equals(&address(Y)));
    assert!(payment.is_empty());
    assert_eq!(escrow.requested_resource_vault().amount(), units(2));
}

#[test]
fn withdraw_before_exchange_is_empty() {
    let (mut escrow, badge) = fungible_escrow(units(100), units(1));
    let received = escrow.withdraw_resource(&badge).unwrap();
    assert!(received.is_empty());
    assert!(received.resource_address().equals(&address(X)));
    assert_eq!(escrow.offered_resource().amount(), units(1));
}

#[test]
fn cancel_returns_offer_and_burns_badge() {
    let (mut escrow, mut badge) = fungible_escrow(units(100), units(1));
    let back = escrow.cancel_escrow(&mut badge).unwrap();
    assert!(back.resource_address().equals(&address(Y)));
    assert_eq!(back.amount(), units(1));
    assert!(badge.is_empty());
    assert!(escrow.is_badge_burned());
    assert!(escrow.offered_resource().is_empty());

    assert_eq!(escrow.cancel_escrow(&mut badge).err(), Some(EscrowError::InvalidCredential));
    assert_eq!(escrow.withdraw_resource(&badge).err(), Some(EscrowError::InvalidCredential));
    let copy = Bucket::new_non_fungible(address(BADGE), vec![badge_id()]);
    assert_eq!(escrow.withdraw_resource(&copy).err(), Some(EscrowError::InvalidCredential));
}

#[test]
fn wrong_or_empty_badge_is_invalid_credential() {
    let (mut escrow, _badge) = fungible_escrow(units(100), units(1));
    let mut payment = Bucket::new_fungible(address(X), units(100));
    escrow.exchange(&mut payment).unwrap();

    let mut foreign = Bucket::new_non_fungible(address(Z), vec![badge_id()]);
    assert_eq!(escrow.withdraw_resource(&foreign).err(), Some(EscrowError::InvalidCredential));
    assert_eq!(escrow.cancel_escrow(&mut foreign).err(), Some(EscrowError::InvalidCredential));
    assert_eq!(foreign.amount(), 1);

    let mut empty = Bucket::new_non_fungible(address(BADGE), vec![]);
    assert_eq!(escrow.withdraw_resource(&empty).err(), Some(EscrowError::InvalidCredential));
    assert_eq!(escrow.cancel_escrow(&mut empty).err(), Some(EscrowError::InvalidCredential));

    assert_eq!(escrow.requested_resource_vault().amount(), units(100));
    assert!(escrow.offered_resource().is_empty());
    assert!(!escrow.is_badge_burned());
}

#[test]
fn cancel_non_fungible_request_then_exchange_gets_nothing() {
    let (mut escrow, mut badge) = non_fungible_escrow(7, units(5));
    let back = escrow.cancel_escrow(&mut badge).unwrap();
    assert!(back.resource_address().equals(&address(Y)));
    assert_eq!(back.amount(), units(5));
    assert!(badge.is_empty());

    let mut payment = Bucket::new_non_fungible(address(Z), vec![NonFungibleLocalId::Integer(7)]);
    let out = escrow.exchange(&mut payment).unwrap();
    assert!(out.is_empty());
    assert!(payment.is_empty());
    assert!(escrow.requested_resource_vault().contains_non_fungible(&NonFungibleLocalId::Integer(7)));
}

#[test]
fn cancel_after_exchange_returns_empty_and_burns() {
    let (mut escrow, mut badge) = fungible_escrow(units(1), units(1));
    let mut payment = Bucket::new_fungible(address(X), units(1));
    escrow.exchange(&mut payment).unwrap();
    let back = escrow.cancel_escrow(&mut badge).unwrap();
    assert!(back.is_empty());
    assert!(badge.is_empty());
    assert_eq!(escrow.withdraw_resource(&badge).err(), Some(EscrowError::InvalidCredential));
}

#[test]
fn identifiers_compare_by_kind_and_value() {
    let a = NonFungibleLocalId::Integer(7);
    assert!(a.equals(&NonFungibleLocalId::Integer(7)));
    assert!(!a.equals(&NonFungibleLocalId::Integer(8)));
    assert!(!a.equals(&NonFungibleLocalId::String("7".to_string())));
    let b = NonFungibleLocalId::Bytes(vec![1, 2, 3]);
    assert!(b.equals(&NonFungibleLocalId::Bytes(vec![1, 2, 3])));
    assert!(!b.equals(&NonFungibleLocalId::Bytes(vec![1, 2])));
    assert!(NonFungibleLocalId::Ruid([4; 32]).equals(&NonFungibleLocalId::Ruid([4; 32])));
    assert!(!NonFungibleLocalId::Ruid([4; 32]).equals(&NonFungibleLocalId::Ruid([5; 32])));
    assert!(bytes_equal(&[1, 2], &[1, 2]));
    assert!(!bytes_equal(&[1, 2], &[1, 3]));
    assert!(!bytes_equal(&[1], &[1, 3]));
    assert!(!address(X).equals(&address(Y)));
}

#[test]
fn bucket_take_and_put() {
    let mut coins = Bucket::new_fungible(address(X), 10);
    let part = coins.take(4);
    assert_eq!(part.amount(), 4);
    assert_eq!(coins.amount(), 6);
    coins.put(part);
    assert_eq!(coins.amount(), 10);
    let all = coins.take_all();
    assert_eq!(all.amount(), 10);
    assert!(coins.is_empty());
    assert!(coins.is_fungible());

    let mut items = Bucket::new_non_fungible(address(Z), vec![NonFungibleLocalId::Integer(1)]);
    let one = items.take_non_fungible(&NonFungibleLocalId::Integer(1));
    assert!(items.is_empty());
    assert!(one.contains_non_fungible(&NonFungibleLocalId::Integer(1)));
    items.put(one);
    assert_eq!(items.amount(), 1);
    assert_eq!(address(Z).node_id(), [Z; 30]);
}
