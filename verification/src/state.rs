//! The executable store and its operations.

use std::collections::HashMap;

use vstd::prelude::*;

use vstd::string::StringExecFns;

use crate::transitions::{
    create_product_spec, events_for, lemma_events_for_push, lookup_product, lookup_user,
    register_user_spec, sell_product_spec, transfer_product_spec, update_user_role_spec,
    StateModel,
};
use crate::types::{
    opt_text, Error, EventModel, Identity, Product, ProductEvent, ProductModel, ProductStatus,
    User, UserModel, UserRole,
};

verus! {

broadcast use vstd::std_specs::hash::group_hash_axioms;

/// The view of the user directory.
pub open spec fn users_view(m: Map<Identity, User>) -> Map<Identity, UserModel> {
    Map::new(|k: Identity| m.contains_key(k), |k: Identity| m[k]@)
}

/// The view of the product registry.
pub open spec fn products_view(v: Seq<Product>) -> Seq<ProductModel> {
    Seq::new(v.len(), |i: int| v[i]@)
}

/// The view of the event log.
pub open spec fn events_view(v: Seq<ProductEvent>) -> Seq<EventModel> {
    Seq::new(v.len(), |i: int| v[i]@)
}

/// Whether an executable user result carries exactly the model result.
pub open spec fn user_result_matches(r: Result<User, Error>, m: Result<UserModel, Error>) -> bool {
    match (r, m) {
        (Ok(u), Ok(um)) => u@ == um,
        (Err(e), Err(em)) => e == em,
        _ => false,
    }
}

/// Whether an executable user lookup carries exactly the model lookup.
pub open spec fn user_opt_matches(r: Option<User>, m: Option<UserModel>) -> bool {
    match (r, m) {
        (Some(u), Some(um)) => u@ == um,
        (None, None) => true,
        _ => false,
    }
}

/// Whether an executable product result carries exactly the model result.
pub open spec fn product_result_matches(
    r: Result<Product, Error>,
    m: Result<ProductModel, Error>,
) -> bool {
    match (r, m) {
        (Ok(p), Ok(pm)) => p@ == pm,
        (Err(e), Err(em)) => e == em,
        _ => false,
    }
}

/// Whether an executable product lookup carries exactly the model lookup.
pub open spec fn product_opt_matches(r: Option<Product>, m: Option<ProductModel>) -> bool {
    match (r, m) {
        (Some(p), Some(pm)) => p@ == pm,
        (None, None) => true,
        _ => false,
    }
}

/// The whole supply-chain store: the user directory, the product registry
/// and the event log. Every operation takes the caller's identity and the
/// current time as arguments; the host supplies both.
pub struct SupplyChain {
    users: HashMap<Identity, User>,
    products: Vec<Product>,
    events: Vec<ProductEvent>,
}

impl View for SupplyChain {
    type V = StateModel;

    closed spec fn view(&self) -> StateModel {
        StateModel {
            users: users_view(self.users@),
            products: products_view(self.products@),
            events: events_view(self.events@),
        }
    }
}

impl SupplyChain {
    /// Internal consistency: every product's id equals its registry position.
    /// Established by `new` and preserved by every operation.
    pub open spec fn wf(&self) -> bool {
        self@.wf()
    }

    /// Creates an empty store.
    pub fn new() -> (s: SupplyChain)
        ensures
            s.wf(),
            s@ == StateModel::empty(),
    {
        let s = SupplyChain { users: HashMap::new(), products: Vec::new(), events: Vec::new() };
        proof {
            assert(users_view(s.users@) =~= Map::<Identity, UserModel>::empty());
            assert(products_view(s.products@) =~= Seq::<ProductModel>::empty());
            assert(events_view(s.events@) =~= Seq::<EventModel>::empty());
            assert(s@ =~= StateModel::empty());
        }
        s
    }

    /// Registers the caller in the user directory. Fails with
    /// `AlreadyRegistered` if the caller already has a record; otherwise the
    /// new record is active, timestamped `now`, and returned.
    pub fn register_user(
        &mut self,
        caller: Identity,
        name: String,
        role: UserRole,
        email: Option<String>,
        company: Option<String>,
        now: u64,
    ) -> (r: Result<User, Error>)
        requires
            old(self).wf(),
        ensures
            final(self).wf(),
            ({
                let (s2, r2) = register_user_spec(
                    old(self)@,
                    caller,
                    name@,
                    role,
                    opt_text(email),
                    opt_text(company),
                    now,
                );
                final(self)@ == s2 && user_result_matches(r, r2)
            }),
    {
        if self.users.contains_key(&caller) {
            return Err(Error::AlreadyRegistered);
        }
        let user = User {
            principal: caller,
            name,
            role,
            email,
            company,
            is_active: true,
            created_at: now,
        };
        let result = user.clone();
        self.users.insert(caller, user);
        proof {
            let (s2, r2) = register_user_spec(
                old(self)@,
                caller,
                name@,
                role,
                opt_text(email),
                opt_text(company),
                now,
            );
            assert(users_view(self.users@) =~= s2.users);
            assert(self@ =~= s2);
        }
        Ok(result)
    }

    /// Looks up the user registered for `principal`, without side effects.
    pub fn get_user(&self, principal: Identity) -> (r: Option<User>)
        ensures
            user_opt_matches(r, lookup_user(self@, principal)),
    {
        match self.users.get(&principal) {
            Some(u) => Some(u.clone()),
            None => None,
        }
    }

    /// Looks up the record of whoever is calling now.
    pub fn get_current_user(&self, caller: Identity) -> (r: Option<User>)
        ensures
            user_opt_matches(r, lookup_user(self@, caller)),
    {
        self.get_user(caller)
    }

    /// Overwrites the caller's role, leaving every other field as it was.
    /// Fails with `NotFound` if the caller has no record.
    pub fn update_user_role(&mut self, caller: Identity, role: UserRole) -> (r: Result<
        User,
        Error,
    >)
        requires
            old(self).wf(),
        ensures
            final(self).wf(),
            ({
                let (s2, r2) = update_user_role_spec(old(self)@, caller, role);
                final(self)@ == s2 && user_result_matches(r, r2)
            }),
    {
        let updated = match self.users.get(&caller) {
            Some(u) => {
                let mut u2 = u.clone();
                u2.role = role;
                u2
            },
            None => {
                return Err(Error::NotFound);
            },
        };
        let result = updated.clone();
        self.users.insert(caller, updated);
        proof {
            let (s2, r2) = update_user_role_spec(old(self)@, caller, role);
            assert(users_view(self.users@) =~= s2.users);
            assert(self@ =~= s2);
        }
        Ok(result)
    }

    /// Appends one event to the log. The log trusts its caller: appending
    /// never fails and validates nothing.
    fn add_product_event(
        &mut self,
        product_id: u64,
        event_type: String,
        from_user: Identity,
        to_user: Identity,
        description: String,
        timestamp: u64,
    )
        ensures
            final(self)@ == (StateModel {
                events: old(self)@.events.push(
                    EventModel {
                        product_id,
                        event_type: event_type@,
                        description: description@,
                        from_user,
                        to_user,
                        timestamp,
                    },
                ),
                ..old(self)@
            }),
    {
        let event = ProductEvent {
            product_id,
            event_type,
            description,
            from_user,
            to_user,
            timestamp,
        };
        self.events.push(event);
        proof {
            assert(events_view(self.events@) =~= events_view(old(self).events@).push(event@));
            assert(self@ =~= (StateModel { events: old(self)@.events.push(event@), ..old(self)@ }));
        }
    }

    /// Creates a product owned by its manufacturer. Only a registered
    /// Manufacturer may create: an unregistered caller fails with
    /// `NotLoggedIn`, any other role with `Unauthorized`. The product gets a
    /// fresh id, status `Available`, and one "Created" event from and to the
    /// caller.
    pub fn create_product(
        &mut self,
        caller: Identity,
        name: String,
        description: String,
        price: u64,
        quantity: u32,
        category: String,
        now: u64,
    ) -> (r: Result<Product, Error>)
        requires
            old(self).wf(),
        ensures
            final(self).wf(),
            ({
                let (s2, r2) = create_product_spec(
                    old(self)@,
                    caller,
                    name@,
                    description@,
                    price,
                    quantity,
                    category@,
                    now,
                );
                final(self)@ == s2 && product_result_matches(r, r2)
            }),
    {
        let user = match self.users.get(&caller) {
            Some(u) => u.clone(),
            None => {
                return Err(Error::NotLoggedIn);
            },
        };
        match user.role {
            UserRole::Manufacturer => {},
            _ => {
                return Err(Error::Unauthorized);
            },
        }
        let id = self.products.len() as u64;
        let event_description = "Product ".to_owned().concat(name.as_str()).concat(
            " created by ",
        ).concat(user.name.as_str());
        let product = Product {
            id,
            name,
            description,
            manufacturer: caller,
            current_owner: caller,
            price,
            quantity,
            status: ProductStatus::Available,
            category,
            created_at: now,
            updated_at: now,
        };
        let result = product.clone();
        proof {
            assert(products_view(self.products@.push(product)) =~= products_view(
                self.products@,
            ).push(product@));
        }
        self.products.push(product);
        self.add_product_event(id, "Created".to_owned(), caller, caller, event_description, now);
        proof {
            let (s2, r2) = create_product_spec(
                old(self)@,
                caller,
                name@,
                description@,
                price,
                quantity,
                category@,
                now,
            );
            assert(self@ =~= s2);
        }
        Ok(result)
    }

    /// Moves custody of a product one step along the chain. Checked in
    /// order: the caller must be registered (`NotLoggedIn`), the product must
    /// exist (`NotFound`), the caller must be its current owner (`NotOwner`),
    /// and a Manufacturer may only hand over to a registered Distributor, a
    /// Distributor only to a registered Retailer, anyone else not at all
    /// (`RoleViolation`). On success the product's owner becomes `to_user`
    /// and one "Transferred" event is appended; on failure nothing changes.
    pub fn transfer_product(
        &mut self,
        caller: Identity,
        product_id: u64,
        to_user: Identity,
        description: String,
        now: u64,
    ) -> (r: Result<Product, Error>)
        requires
            old(self).wf(),
        ensures
            final(self).wf(),
            ({
                let (s2, r2) = transfer_product_spec(
                    old(self)@,
                    caller,
                    product_id,
                    to_user,
                    description@,
                    now,
                );
                final(self)@ == s2 && product_result_matches(r, r2)
            }),
    {
        let user = match self.users.get(&caller) {
            Some(u) => u.clone(),
            None => {
                return Err(Error::NotLoggedIn);
            },
        };
        if product_id >= self.products.len() as u64 {
            return Err(Error::NotFound);
        }
        let idx = product_id as usize;
        if self.products[idx].current_owner != caller {
            return Err(Error::NotOwner);
        }
        let allowed = match user.role {
            UserRole::Manufacturer => match self.users.get(&to_user) {
                Some(t) => t.role == UserRole::Distributor,
                None => false,
            },
            UserRole::Distributor => match self.users.get(&to_user) {
                Some(t) => t.role == UserRole::Retailer,
                None => false,
            },
            _ => false,
        };
        if !allowed {
            return Err(Error::RoleViolation);
        }
        let mut updated = self.products[idx].clone();
        updated.current_owner = to_user;
        updated.updated_at = now;
        let result = updated.clone();
        proof {
            assert(products_view(self.products@.update(idx as int, updated)) =~= products_view(
                self.products@,
            ).update(idx as int, updated@));
        }
        self.products[idx] = updated;
        self.add_product_event(
            product_id,
            "Transferred".to_owned(),
            caller,
            to_user,
            description,
            now,
        );
        proof {
            let (s2, r2) = transfer_product_spec(
                old(self)@,
                caller,
                product_id,
                to_user,
                description@,
                now,
            );
            assert(self@ =~= s2);
        }
        Ok(result)
    }

    /// Sells `quantity` units of a product to a customer outside the chain.
    /// Checked in order: the caller must be registered (`NotLoggedIn`) and a
    /// Retailer (`RoleViolation`), the product must exist (`NotFound`), the
    /// caller must be its current owner (`NotOwner`), and the request must
    /// not exceed the stock (`InsufficientStock`). On success the stock
    /// shrinks by the sold amount and one "Sold" event is appended; the
    /// Retailer stays the owner, and the price is recorded nowhere: no
    /// monetary ledger is kept.
    pub fn sell_product(
        &mut self,
        caller: Identity,
        product_id: u64,
        customer: Identity,
        _price: u64,
        quantity: u32,
        description: String,
        now: u64,
    ) -> (r: Result<Product, Error>)
        requires
            old(self).wf(),
        ensures
            final(self).wf(),
            ({
                let (s2, r2) = sell_product_spec(
                    old(self)@,
                    caller,
                    product_id,
                    customer,
                    quantity,
                    description@,
                    now,
                );
                final(self)@ == s2 && product_result_matches(r, r2)
            }),
    {
        let user = match self.users.get(&caller) {
            Some(u) => u.clone(),
            None => {
                return Err(Error::NotLoggedIn);
            },
        };
        match user.role {
            UserRole::Retailer => {},
            _ => {
                return Err(Error::RoleViolation);
            },
        }
        if product_id >= self.products.len() as u64 {
            return Err(Error::NotFound);
        }
        let idx = product_id as usize;
        if self.products[idx].current_owner != caller {
            return Err(Error::NotOwner);
        }
        if self.products[idx].quantity < quantity {
            return Err(Error::InsufficientStock);
        }
        let mut updated = self.products[idx].clone();
        updated.quantity = updated.quantity - quantity;
        updated.updated_at = now;
        let result = updated.clone();
        proof {
            assert(products_view(self.products@.update(idx as int, updated)) =~= products_view(
                self.products@,
            ).update(idx as int, updated@));
        }
        self.products[idx] = updated;
        self.add_product_event(product_id, "Sold".to_owned(), caller, customer, description, now);
        proof {
            let (s2, r2) = sell_product_spec(
                old(self)@,
                caller,
                product_id,
                customer,
                quantity,
                description@,
                now,
            );
            assert(self@ =~= s2);
        }
        Ok(result)
    }

    /// Looks up a product by id, without side effects.
    pub fn get_product(&self, product_id: u64) -> (r: Option<Product>)
        ensures
            product_opt_matches(r, lookup_product(self@, product_id)),
    {
        if product_id < self.products.len() as u64 {
            let idx = product_id as usize;
            Some(self.products[idx].clone())
        } else {
            None
        }
    }

    /// Returns a snapshot of every product, in creation order.
    pub fn get_all_products(&self) -> (r: Vec<Product>)
        ensures
            products_view(r@) == self@.products,
    {
        let mut result: Vec<Product> = Vec::new();
        let mut i: usize = 0;
        while i < self.products.len()
            invariant
                i <= self.products.len(),
                products_view(result@) == products_view(self.products@).take(i as int),
            decreases self.products.len() - i,
        {
            let ghost prefix = products_view(self.products@).take(i as int);
            result.push(self.products[i].clone());
            i = i + 1;
            proof {
                assert(products_view(self.products@).take(i as int) =~= prefix.push(
                    products_view(self.products@)[i - 1],
                ));
                assert(products_view(result@) =~= prefix.push(products_view(self.products@)[i - 1]));
            }
        }
        proof {
            assert(products_view(self.products@).take(self.products@.len() as int) =~= self@.products);
        }
        result
    }

    /// Returns a snapshot of the events recorded for one product, in the
    /// order they were appended. Events of other products do not appear.
    pub fn get_product_events(&self, product_id: u64) -> (r: Vec<ProductEvent>)
        ensures
            events_view(r@) == events_for(self@.events, product_id),
    {
        let mut result: Vec<ProductEvent> = Vec::new();
        let mut i: usize = 0;
        while i < self.events.len()
            invariant
                i <= self.events.len(),
                events_view(result@) == events_for(events_view(self.events@).take(i as int), product_id),
            decreases self.events.len() - i,
        {
            let ghost prefix = events_view(self.events@).take(i as int);
            if self.events[i].product_id == product_id {
                result.push(self.events[i].clone());
            }
            i = i + 1;
            proof {
                assert(events_view(self.events@).take(i as int) =~= prefix.push(
                    events_view(self.events@)[i - 1],
                ));
                lemma_events_for_push(prefix, events_view(self.events@)[i - 1], product_id);
                assert(events_view(result@) =~= events_for(
                    events_view(self.events@).take(i as int),
                    product_id,
                ));
            }
        }
        proof {
            assert(events_view(self.events@).take(self.events@.len() as int) =~= self@.events);
        }
        result
    }
}

} // verus!
