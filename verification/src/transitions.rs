//! The supply chain as a mathematical state machine.
//!
//! `StateModel` is the model of the whole store, and each operation of the
//! library has a spec-level transition function here that maps the old state
//! and the call's arguments to the new state and the result. The executable
//! methods on `SupplyChain` promise exactly these transitions; the laws in
//! `laws` are proved from them alone.

use vstd::prelude::*;

use crate::types::{Error, EventModel, Identity, ProductModel, ProductStatus, UserModel, UserRole};

verus! {

/// The model of a whole [`crate::SupplyChain`] store.
#[verifier::ext_equal]
pub ghost struct StateModel {
    /// The user directory: one record per registered identity.
    pub users: Map<Identity, UserModel>,
    /// The product registry, in creation order. A product's `id` equals its
    /// position, so products are looked up by index.
    pub products: Seq<ProductModel>,
    /// The append-only event log, in insertion order, all products mixed.
    pub events: Seq<EventModel>,
}

impl StateModel {
    /// The empty store: no users, no products, no events.
    pub open spec fn empty() -> StateModel {
        StateModel { users: Map::empty(), products: Seq::empty(), events: Seq::empty() }
    }

    /// Internal consistency of a store: product ids equal registry positions,
    /// so id lookup is index lookup and every id is unique.
    pub open spec fn wf(self) -> bool {
        forall|i: int|
            0 <= i < self.products.len() ==> (#[trigger] self.products[i]).id == i as u64
    }
}

/// The user record registered for `id`, if any.
pub open spec fn lookup_user(s: StateModel, id: Identity) -> Option<UserModel> {
    if s.users.contains_key(id) {
        Some(s.users[id])
    } else {
        None
    }
}

/// The product stored under `id`, if any.
pub open spec fn lookup_product(s: StateModel, id: u64) -> Option<ProductModel> {
    if id < s.products.len() {
        Some(s.products[id as int])
    } else {
        None
    }
}

/// The events recorded for product `pid`, in the order they were appended.
pub open spec fn events_for(events: Seq<EventModel>, pid: u64) -> Seq<EventModel>
    decreases events.len(),
{
    if events.len() == 0 {
        Seq::empty()
    } else {
        let rest = events_for(events.drop_last(), pid);
        if events.last().product_id == pid {
            rest.push(events.last())
        } else {
            rest
        }
    }
}

/// Appending one event touches the history of its own product alone: the
/// new event lands at the end of its product's history, and the history of
/// every other product is untouched.
pub proof fn lemma_events_for_push(events: Seq<EventModel>, e: EventModel, pid: u64)
    ensures
        events_for(events.push(e), pid) == if e.product_id == pid {
            events_for(events, pid).push(e)
        } else {
            events_for(events, pid)
        },
{
    assert(events.push(e).drop_last() =~= events);
}

/// What `register_user` does: fails if the caller is already registered,
/// otherwise inserts a fresh active record and returns it.
pub open spec fn register_user_spec(
    s: StateModel,
    caller: Identity,
    name: Seq<char>,
    role: UserRole,
    email: Option<Seq<char>>,
    company: Option<Seq<char>>,
    now: u64,
) -> (StateModel, Result<UserModel, Error>) {
    if s.users.contains_key(caller) {
        (s, Err(Error::AlreadyRegistered))
    } else {
        let u = UserModel {
            principal: caller,
            name,
            role,
            email,
            company,
            is_active: true,
            created_at: now,
        };
        (StateModel { users: s.users.insert(caller, u), ..s }, Ok(u))
    }
}

/// What `update_user_role` does: fails if the caller is not registered,
/// otherwise overwrites the role field alone and returns the updated record.
pub open spec fn update_user_role_spec(s: StateModel, caller: Identity, role: UserRole) -> (
    StateModel,
    Result<UserModel, Error>,
) {
    match lookup_user(s, caller) {
        None => (s, Err(Error::NotFound)),
        Some(u) => {
            let u2 = UserModel { role, ..u };
            (StateModel { users: s.users.insert(caller, u2), ..s }, Ok(u2))
        },
    }
}

/// The id given to the next product created: ids are handed out in creation
/// order, so within one store no two products share one.
pub open spec fn next_product_id(s: StateModel) -> u64 {
    s.products.len() as u64
}

/// The description recorded with a "Created" event.
pub open spec fn created_description(product_name: Seq<char>, creator_name: Seq<char>) -> Seq<
    char,
> {
    "Product "@ + product_name + " created by "@ + creator_name
}

/// What `create_product` does: only a registered Manufacturer may create.
/// The new product is owned by its manufacturer, `Available`, and a single
/// "Created" event from and to the caller is appended.
pub open spec fn create_product_spec(
    s: StateModel,
    caller: Identity,
    name: Seq<char>,
    description: Seq<char>,
    price: u64,
    quantity: u32,
    category: Seq<char>,
    now: u64,
) -> (StateModel, Result<ProductModel, Error>) {
    match lookup_user(s, caller) {
        None => (s, Err(Error::NotLoggedIn)),
        Some(u) => {
            if u.role != UserRole::Manufacturer {
                (s, Err(Error::Unauthorized))
            } else {
                let id = next_product_id(s);
                let p = ProductModel {
                    id,
                    name,
                    description,
                    manufacturer: caller,
                    current_owner: caller,
                    price,
                    quantity,
                    status: ProductStatus::Available,
                    category,
                    created_at: now,
                    updated_at: now,
                };
                let e = EventModel {
                    product_id: id,
                    event_type: "Created"@,
                    description: created_description(name, u.name),
                    from_user: caller,
                    to_user: caller,
                    timestamp: now,
                };
                (
                    StateModel { products: s.products.push(p), events: s.events.push(e), ..s },
                    Ok(p),
                )
            }
        },
    }
}

/// Whether the role pair of a transfer is allowed: a Manufacturer may hand
/// custody to a registered Distributor, a Distributor to a registered
/// Retailer, and nobody else may transfer at all.
pub open spec fn transfer_allowed(s: StateModel, caller_role: UserRole, to_user: Identity) -> bool {
    match caller_role {
        UserRole::Manufacturer => lookup_user(s, to_user) matches Some(t) && t.role
            == UserRole::Distributor,
        UserRole::Distributor => lookup_user(s, to_user) matches Some(t) && t.role
            == UserRole::Retailer,
        _ => false,
    }
}

/// What `transfer_product` does. Checked in order: the caller must be
/// registered (`NotLoggedIn`), the product must exist (`NotFound`), the
/// caller must be its current owner (`NotOwner`), and the role pair must be
/// allowed (`RoleViolation`). On success the product's owner becomes
/// `to_user`, `updated_at` is bumped, and one "Transferred" event is
/// appended; on failure the state is unchanged.
pub open spec fn transfer_product_spec(
    s: StateModel,
    caller: Identity,
    product_id: u64,
    to_user: Identity,
    description: Seq<char>,
    now: u64,
) -> (StateModel, Result<ProductModel, Error>) {
    match lookup_user(s, caller) {
        None => (s, Err(Error::NotLoggedIn)),
        Some(u) => match lookup_product(s, product_id) {
            None => (s, Err(Error::NotFound)),
            Some(p) => {
                if p.current_owner != caller {
                    (s, Err(Error::NotOwner))
                } else if !transfer_allowed(s, u.role, to_user) {
                    (s, Err(Error::RoleViolation))
                } else {
                    let p2 = ProductModel { current_owner: to_user, updated_at: now, ..p };
                    let e = EventModel {
                        product_id,
                        event_type: "Transferred"@,
                        description,
                        from_user: caller,
                        to_user,
                        timestamp: now,
                    };
                    (
                        StateModel {
                            products: s.products.update(product_id as int, p2),
                            events: s.events.push(e),
                            ..s
                        },
                        Ok(p2),
                    )
                }
            },
        },
    }
}

/// What `sell_product` does. Checked in order: the caller must be registered
/// (`NotLoggedIn`) and a Retailer (`RoleViolation`), the product must exist
/// (`NotFound`), the caller must be its current owner (`NotOwner`), and the
/// requested quantity must not exceed the stock (`InsufficientStock`). On
/// success the stock shrinks by the sold amount, `updated_at` is bumped, and
/// one "Sold" event from the caller to the customer is appended; ownership
/// does not change, and on failure nothing does.
pub open spec fn sell_product_spec(
    s: StateModel,
    caller: Identity,
    product_id: u64,
    customer: Identity,
    quantity: u32,
    description: Seq<char>,
    now: u64,
) -> (StateModel, Result<ProductModel, Error>) {
    match lookup_user(s, caller) {
        None => (s, Err(Error::NotLoggedIn)),
        Some(u) => {
            if u.role != UserRole::Retailer {
                (s, Err(Error::RoleViolation))
            } else {
                match lookup_product(s, product_id) {
                    None => (s, Err(Error::NotFound)),
                    Some(p) => {
                        if p.current_owner != caller {
                            (s, Err(Error::NotOwner))
                        } else if p.quantity < quantity {
                            (s, Err(Error::InsufficientStock))
                        } else {
                            let p2 = ProductModel {
                                quantity: (p.quantity - quantity) as u32,
                                updated_at: now,
                                ..p
                            };
                            let e = EventModel {
                                product_id,
                                event_type: "Sold"@,
                                description,
                                from_user: caller,
                                to_user: customer,
                                timestamp: now,
                            };
                            (
                                StateModel {
                                    products: s.products.update(product_id as int, p2),
                                    events: s.events.push(e),
                                    ..s
                                },
                                Ok(p2),
                            )
                        }
                    },
                }
            }
        },
    }
}

} // verus!
