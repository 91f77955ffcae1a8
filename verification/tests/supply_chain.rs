use supply_chain::{Error, ProductStatus, SupplyChain, UserRole};

const ALICE: u64 = 1;
const BOB: u64 = 2;
const RITA: u64 = 3;
const CARL: u64 = 4;
const NOBODY: u64 = 99;

/// A store with Alice the Manufacturer, Bob the Distributor, Rita the
/// Retailer and Carl the Customer registered.
fn populated() -> SupplyChain {
    let mut s = SupplyChain::new();
    s.register_user(ALICE, "Alice".to_string(), UserRole::Manufacturer, None, None, 10)
        .unwrap();
    s.register_user(BOB, "Bob".to_string(), UserRole::Distributor, None, None, 11)
        .unwrap();
    s.register_user(RITA, "Rita".to_string(), UserRole::Retailer, None, None, 12)
        .unwrap();
    s.register_user(CARL, "Carl".to_string(), UserRole::Customer, None, None, 13)
        .unwrap();
    s
}

#[test]
fn register_returns_record() {
    let mut s = SupplyChain::new();
    let u = s
        .register_user(
            ALICE,
            "Alice".to_string(),
            UserRole::Manufacturer,
            Some("a@example.com".to_string()),
            Some("Acme".to_string()),
            42,
        )
        .unwrap();
    assert_eq!(u.principal, ALICE);
    assert_eq!(u.name, "Alice");
    assert_eq!(u.role, UserRole::Manufacturer);
    assert_eq!(u.email, Some("a@example.com".to_string()));
    assert_eq!(u.company, Some("Acme".to_string()));
    assert!(u.is_active);
    assert_eq!(u.created_at, 42);
}

#[test]
fn register_twice_fails() {
    let mut s = SupplyChain::new();
    s.register_user(ALICE, "Alice".to_string(), UserRole::Manufacturer, None, None, 1)
        .unwrap();
    let second = s.register_user(ALICE, "Someone".to_string(), UserRole::Retailer, None, None, 2);
    assert_eq!(second.unwrap_err(), Error::AlreadyRegistered);
    // The first record stands untouched.
    let u = s.get_user(ALICE).unwrap();
    assert_eq!(u.name, "Alice");
    assert_eq!(u.role, UserRole::Manufacturer);
}

#[test]
fn get_user_absent() {
    let s = SupplyChain::new();
    assert!(s.get_user(NOBODY).is_none());
}

#[test]
fn get_current_user_matches_caller() {
    let s = populated();
    let u = s.get_current_user(BOB).unwrap();
    assert_eq!(u.principal, BOB);
    assert_eq!(u.role, UserRole::Distributor);
    assert!(s.get_current_user(NOBODY).is_none());
}

#[test]
fn update_role_overwrites_role_only() {
    let mut s = populated();
    let u = s.update_user_role(CARL, UserRole::Retailer).unwrap();
    assert_eq!(u.role, UserRole::Retailer);
    assert_eq!(u.name, "Carl");
    assert_eq!(u.created_at, 13);
    let again = s.get_user(CARL).unwrap();
    assert_eq!(again.role, UserRole::Retailer);
}

#[test]
fn update_role_unknown_user() {
    let mut s = SupplyChain::new();
    let r = s.update_user_role(NOBODY, UserRole::Customer);
    assert_eq!(r.unwrap_err(), Error::NotFound);
}

#[test]
fn create_product_by_manufacturer() {
    let mut s = populated();
    let p = s
        .create_product(
            ALICE,
            "Widget".to_string(),
            "A widget".to_string(),
            999,
            10,
            "tools".to_string(),
            20,
        )
        .unwrap();
    assert_eq!(p.id, 0);
    assert_eq!(p.manufacturer, ALICE);
    assert_eq!(p.current_owner, ALICE);
    assert_eq!(p.quantity, 10);
    assert_eq!(p.status, ProductStatus::Available);
    assert_eq!(p.created_at, 20);
    assert_eq!(p.updated_at, 20);
    let events = s.get_product_events(0);
    assert_eq!(events.len(), 1);
    assert_eq!(events[0].event_type, "Created");
    assert_eq!(events[0].from_user, ALICE);
    assert_eq!(events[0].to_user, ALICE);
    assert_eq!(events[0].timestamp, 20);
    assert_eq!(events[0].description, "Product Widget created by Alice");
}

#[test]
fn create_product_ids_are_sequential() {
    let mut s = populated();
    let a = s
        .create_product(ALICE, "A".to_string(), "".to_string(), 1, 1, "c".to_string(), 20)
        .unwrap();
    let b = s
        .create_product(ALICE, "B".to_string(), "".to_string(), 1, 1, "c".to_string(), 21)
        .unwrap();
    assert_eq!(a.id, 0);
    assert_eq!(b.id, 1);
}

#[test]
fn create_product_requires_manufacturer() {
    let mut s = populated();
    let r = s.create_product(BOB, "W".to_string(), "".to_string(), 1, 1, "c".to_string(), 20);
    assert_eq!(r.unwrap_err(), Error::Unauthorized);
    let r = s.create_product(NOBODY, "W".to_string(), "".to_string(), 1, 1, "c".to_string(), 20);
    assert_eq!(r.unwrap_err(), Error::NotLoggedIn);
    assert!(s.get_all_products().is_empty());
}

#[test]
fn transfer_chain_scenario() {
    let mut s = populated();
    let p = s
        .create_product(
            ALICE,
            "Widget".to_string(),
            "A widget".to_string(),
            999,
            10,
            "tools".to_string(),
            20,
        )
        .unwrap();
    assert_eq!(p.current_owner, ALICE);
    assert_eq!(p.status, ProductStatus::Available);
    assert_eq!(s.get_product_events(p.id).len(), 1);

    let p = s
        .transfer_product(ALICE, p.id, BOB, "to distribution".to_string(), 30)
        .unwrap();
    assert_eq!(p.current_owner, BOB);
    assert_eq!(p.updated_at, 30);
    let events = s.get_product_events(p.id);
    assert_eq!(events.len(), 2);
    assert_eq!(events[1].event_type, "Transferred");
    assert_eq!(events[1].from_user, ALICE);
    assert_eq!(events[1].to_user, BOB);
    assert_eq!(events[1].description, "to distribution");

    // A Distributor may not hand custody back to a Manufacturer.
    let r = s.transfer_product(BOB, p.id, ALICE, "backwards".to_string(), 31);
    assert_eq!(r.unwrap_err(), Error::RoleViolation);
    assert_eq!(s.get_product(p.id).unwrap().current_owner, BOB);
    assert_eq!(s.get_product_events(p.id).len(), 2);
}

#[test]
fn transfer_full_chain_to_retailer() {
    let mut s = populated();
    let p = s
        .create_product(ALICE, "W".to_string(), "".to_string(), 1, 5, "c".to_string(), 20)
        .unwrap();
    s.transfer_product(ALICE, p.id, BOB, "step one".to_string(), 21).unwrap();
    let p = s.transfer_product(BOB, p.id, RITA, "step two".to_string(), 22).unwrap();
    assert_eq!(p.current_owner, RITA);
    let events = s.get_product_events(p.id);
    assert_eq!(events.len(), 3);
    assert_eq!(events[2].to_user, RITA);
}

#[test]
fn transfer_checks_in_order() {
    let mut s = populated();
    let p = s
        .create_product(ALICE, "W".to_string(), "".to_string(), 1, 5, "c".to_string(), 20)
        .unwrap();
    // Unregistered caller.
    let r = s.transfer_product(NOBODY, p.id, BOB, "x".to_string(), 21);
    assert_eq!(r.unwrap_err(), Error::NotLoggedIn);
    // Missing product.
    let r = s.transfer_product(ALICE, 7, BOB, "x".to_string(), 21);
    assert_eq!(r.unwrap_err(), Error::NotFound);
    // Registered caller who is not the owner.
    let r = s.transfer_product(BOB, p.id, RITA, "x".to_string(), 21);
    assert_eq!(r.unwrap_err(), Error::NotOwner);
    // Owner, but the destination is unregistered.
    let r = s.transfer_product(ALICE, p.id, NOBODY, "x".to_string(), 21);
    assert_eq!(r.unwrap_err(), Error::RoleViolation);
    // Owner, but the destination's role is wrong for a Manufacturer.
    let r = s.transfer_product(ALICE, p.id, RITA, "x".to_string(), 21);
    assert_eq!(r.unwrap_err(), Error::RoleViolation);
    // Nothing above changed the product or the log.
    assert_eq!(s.get_product(p.id).unwrap().current_owner, ALICE);
    assert_eq!(s.get_product(p.id).unwrap().updated_at, 20);
    assert_eq!(s.get_product_events(p.id).len(), 1);
}

#[test]
fn retailer_and_customer_cannot_transfer() {
    let mut s = populated();
    let p = s
        .create_product(ALICE, "W".to_string(), "".to_string(), 1, 5, "c".to_string(), 20)
        .unwrap();
    s.transfer_product(ALICE, p.id, BOB, "x".to_string(), 21).unwrap();
    s.transfer_product(BOB, p.id, RITA, "x".to_string(), 22).unwrap();
    // Rita owns it now, but a Retailer transfers to nobody.
    let r = s.transfer_product(RITA, p.id, CARL, "x".to_string(), 23);
    assert_eq!(r.unwrap_err(), Error::RoleViolation);
    assert_eq!(s.get_product(p.id).unwrap().current_owner, RITA);
}

#[test]
fn sell_decrements_stock_and_keeps_owner() {
    let mut s = populated();
    let p = s
        .create_product(ALICE, "W".to_string(), "".to_string(), 1, 10, "c".to_string(), 20)
        .unwrap();
    s.transfer_product(ALICE, p.id, BOB, "x".to_string(), 21).unwrap();
    s.transfer_product(BOB, p.id, RITA, "x".to_string(), 22).unwrap();
    let p = s
        .sell_product(RITA, p.id, CARL, 150, 3, "three units".to_string(), 30)
        .unwrap();
    assert_eq!(p.quantity, 7);
    assert_eq!(p.current_owner, RITA);
    assert_eq!(p.updated_at, 30);
    let events = s.get_product_events(p.id);
    assert_eq!(events.len(), 4);
    assert_eq!(events[3].event_type, "Sold");
    assert_eq!(events[3].from_user, RITA);
    assert_eq!(events[3].to_user, CARL);
}

#[test]
fn sell_exact_stock_reaches_zero() {
    let mut s = populated();
    let p = s
        .create_product(ALICE, "W".to_string(), "".to_string(), 1, 4, "c".to_string(), 20)
        .unwrap();
    s.transfer_product(ALICE, p.id, BOB, "x".to_string(), 21).unwrap();
    s.transfer_product(BOB, p.id, RITA, "x".to_string(), 22).unwrap();
    let p = s.sell_product(RITA, p.id, CARL, 1, 4, "all of it".to_string(), 23).unwrap();
    assert_eq!(p.quantity, 0);
    // Status does not transition automatically when stock runs out.
    assert_eq!(p.status, ProductStatus::Available);
}

#[test]
fn sell_more_than_stock_changes_nothing() {
    let mut s = populated();
    let p = s
        .create_product(ALICE, "W".to_string(), "".to_string(), 1, 4, "c".to_string(), 20)
        .unwrap();
    s.transfer_product(ALICE, p.id, BOB, "x".to_string(), 21).unwrap();
    s.transfer_product(BOB, p.id, RITA, "x".to_string(), 22).unwrap();
    let r = s.sell_product(RITA, p.id, CARL, 1, 5, "too much".to_string(), 23);
    assert_eq!(r.unwrap_err(), Error::InsufficientStock);
    let after = s.get_product(p.id).unwrap();
    assert_eq!(after.quantity, 4);
    assert_eq!(after.updated_at, 22);
    assert_eq!(s.get_product_events(p.id).len(), 3);
}

#[test]
fn sell_by_non_owner_retailer_fails() {
    let mut s = populated();
    let p = s
        .create_product(ALICE, "W".to_string(), "".to_string(), 1, 4, "c".to_string(), 20)
        .unwrap();
    // Rita is a Retailer, but Alice still owns the product.
    let r = s.sell_product(RITA, p.id, CARL, 1, 1, "x".to_string(), 21);
    assert_eq!(r.unwrap_err(), Error::NotOwner);
    assert_eq!(s.get_product(p.id).unwrap().quantity, 4);
}

#[test]
fn sell_requires_retailer() {
    let mut s = populated();
    let p = s
        .create_product(ALICE, "W".to_string(), "".to_string(), 1, 4, "c".to_string(), 20)
        .unwrap();
    let r = s.sell_product(ALICE, p.id, CARL, 1, 1, "x".to_string(), 21);
    assert_eq!(r.unwrap_err(), Error::RoleViolation);
    let r = s.sell_product(NOBODY, p.id, CARL, 1, 1, "x".to_string(), 21);
    assert_eq!(r.unwrap_err(), Error::NotLoggedIn);
}

#[test]
fn sell_missing_product() {
    let mut s = populated();
    let r = s.sell_product(RITA, 3, CARL, 1, 1, "x".to_string(), 21);
    assert_eq!(r.unwrap_err(), Error::NotFound);
}

#[test]
fn events_are_per_product_and_ordered() {
    let mut s = populated();
    let a = s
        .create_product(ALICE, "A".to_string(), "".to_string(), 1, 9, "c".to_string(), 20)
        .unwrap();
    let b = s
        .create_product(ALICE, "B".to_string(), "".to_string(), 1, 9, "c".to_string(), 21)
        .unwrap();
    s.transfer_product(ALICE, b.id, BOB, "b moves".to_string(), 22).unwrap();
    s.transfer_product(ALICE, a.id, BOB, "a moves".to_string(), 23).unwrap();
    s.transfer_product(BOB, a.id, RITA, "a moves again".to_string(), 24).unwrap();

    let a_events = s.get_product_events(a.id);
    assert_eq!(a_events.len(), 3);
    assert_eq!(a_events[0].event_type, "Created");
    assert_eq!(a_events[1].description, "a moves");
    assert_eq!(a_events[2].description, "a moves again");
    assert!(a_events.iter().all(|e| e.product_id == a.id));

    let b_events = s.get_product_events(b.id);
    assert_eq!(b_events.len(), 2);
    assert_eq!(b_events[1].description, "b moves");

    assert!(s.get_product_events(77).is_empty());
}

#[test]
fn get_all_products_in_creation_order() {
    let mut s = populated();
    assert!(s.get_all_products().is_empty());
    s.create_product(ALICE, "A".to_string(), "".to_string(), 1, 1, "c".to_string(), 20)
        .unwrap();
    s.create_product(ALICE, "B".to_string(), "".to_string(), 1, 1, "c".to_string(), 21)
        .unwrap();
    let all = s.get_all_products();
    assert_eq!(all.len(), 2);
    assert_eq!(all[0].name, "A");
    assert_eq!(all[1].name, "B");
}

#[test]
fn get_product_absent() {
    let s = SupplyChain::new();
    assert!(s.get_product(0).is_none());
}

#[test]
fn error_messages() {
    assert_eq!(Error::AlreadyRegistered.message(), "User already registered");
    assert_eq!(Error::NotFound.message(), "Not found");
    assert_eq!(Error::NotLoggedIn.message(), "User not logged in");
    assert_eq!(Error::Unauthorized.message(), "Unauthorized");
    assert_eq!(Error::RoleViolation.message(), "Role does not permit this operation");
    assert_eq!(Error::NotOwner.message(), "You are not the current owner of this product");
    assert_eq!(Error::InsufficientStock.message(), "Not enough quantity available");
}
