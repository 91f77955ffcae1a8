//! The data types of the supply chain and their mathematical models.
//!
//! Each executable type has a ghost model (`UserModel`, `ProductModel`,
//! `EventModel`) in which every string is a `Seq<char>`; contracts are stated
//! over the models, reached through each type's `view` (`@`).

use vstd::prelude::*;

verus! {

/// An opaque caller identity. The host platform authenticates callers and
/// hands the library one comparable key per caller; the library never looks
/// inside it.
pub type Identity = u64;

/// The role a registered user acts under. Roles are mutually exclusive and
/// gate every custody operation.
#[derive(Clone, Copy, PartialEq, Eq, Debug, Structural)]
pub enum UserRole {
    Manufacturer,
    Distributor,
    Retailer,
    Customer,
}

/// The stock status of a product. Set to `Available` at creation and never
/// transitioned automatically afterwards, even when the quantity reaches
/// zero: a fixed behaviour of this design, not an oversight.
#[derive(Clone, Copy, PartialEq, Eq, Debug, Structural)]
pub enum ProductStatus {
    Available,
    OutOfStock,
    Discontinued,
}

/// Every way an operation can fail. Failures are ordinary results: no
/// operation panics, and nothing is mutated on a failed call.
#[derive(Clone, Copy, PartialEq, Eq, Debug, Structural)]
pub enum Error {
    /// `register_user` was called for an identity already present.
    AlreadyRegistered,
    /// A user or product lookup by key failed.
    NotFound,
    /// The operation requires a registered user for the caller, but none exists.
    NotLoggedIn,
    /// The caller's role does not permit creating a product.
    Unauthorized,
    /// The caller's role does not permit this custody move, or the
    /// destination's role cannot receive it.
    RoleViolation,
    /// The caller is not the product's current owner.
    NotOwner,
    /// A sale requested more units than the product has in stock.
    InsufficientStock,
}

impl Error {
    /// A human-readable description of the failure.
    pub fn message(&self) -> (m: &'static str)
        ensures
            m@ == self.spec_message(),
    {
        match self {
            Error::AlreadyRegistered => "User already registered",
            Error::NotFound => "Not found",
            Error::NotLoggedIn => "User not logged in",
            Error::Unauthorized => "Unauthorized",
            Error::RoleViolation => "Role does not permit this operation",
            Error::NotOwner => "You are not the current owner of this product",
            Error::InsufficientStock => "Not enough quantity available",
        }
    }

    /// What `message` returns, for each variant.
    pub open spec fn spec_message(self) -> Seq<char> {
        match self {
            Error::AlreadyRegistered => "User already registered"@,
            Error::NotFound => "Not found"@,
            Error::NotLoggedIn => "User not logged in"@,
            Error::Unauthorized => "Unauthorized"@,
            Error::RoleViolation => "Role does not permit this operation"@,
            Error::NotOwner => "You are not the current owner of this product"@,
            Error::InsufficientStock => "Not enough quantity available"@,
        }
    }
}

/// A registered user: one record per identity, created once, never deleted.
#[derive(Debug)]
pub struct User {
    pub principal: Identity,
    pub name: String,
    pub role: UserRole,
    pub email: Option<String>,
    pub company: Option<String>,
    pub is_active: bool,
    pub created_at: u64,
}

/// The model of a [`User`].
#[verifier::ext_equal]
pub ghost struct UserModel {
    pub principal: Identity,
    pub name: Seq<char>,
    pub role: UserRole,
    pub email: Option<Seq<char>>,
    pub company: Option<Seq<char>>,
    pub is_active: bool,
    pub created_at: u64,
}

/// The view of an optional owned string.
pub open spec fn opt_text(o: Option<String>) -> Option<Seq<char>> {
    match o {
        Some(s) => Some(s@),
        None => None,
    }
}

impl View for User {
    type V = UserModel;

    open spec fn view(&self) -> UserModel {
        UserModel {
            principal: self.principal,
            name: self.name@,
            role: self.role,
            email: opt_text(self.email),
            company: opt_text(self.company),
            is_active: self.is_active,
            created_at: self.created_at,
        }
    }
}

impl Clone for User {
    fn clone(&self) -> (r: User)
        ensures
            r@ == self@,
    {
        User {
            principal: self.principal,
            name: self.name.clone(),
            role: self.role,
            email: clone_opt_text(&self.email),
            company: clone_opt_text(&self.company),
            is_active: self.is_active,
            created_at: self.created_at,
        }
    }
}

/// Copies an optional owned string.
fn clone_opt_text(o: &Option<String>) -> (r: Option<String>)
    ensures
        opt_text(r) == opt_text(*o),
{
    match o {
        Some(s) => Some(s.clone()),
        None => None,
    }
}

/// A tracked product. `manufacturer` is fixed at creation; `current_owner`
/// changes only through `transfer_product`; `quantity` decreases only through
/// `sell_product`.
#[derive(Debug)]
pub struct Product {
    pub id: u64,
    pub name: String,
    pub description: String,
    pub manufacturer: Identity,
    pub current_owner: Identity,
    /// Unit price in minor currency units. Recorded at creation and never
    /// read by any transition: no monetary ledger is kept.
    pub price: u64,
    pub quantity: u32,
    pub status: ProductStatus,
    pub category: String,
    pub created_at: u64,
    pub updated_at: u64,
}

/// The model of a [`Product`].
#[verifier::ext_equal]
pub ghost struct ProductModel {
    pub id: u64,
    pub name: Seq<char>,
    pub description: Seq<char>,
    pub manufacturer: Identity,
    pub current_owner: Identity,
    pub price: u64,
    pub quantity: u32,
    pub status: ProductStatus,
    pub category: Seq<char>,
    pub created_at: u64,
    pub updated_at: u64,
}

impl View for Product {
    type V = ProductModel;

    open spec fn view(&self) -> ProductModel {
        ProductModel {
            id: self.id,
            name: self.name@,
            description: self.description@,
            manufacturer: self.manufacturer,
            current_owner: self.current_owner,
            price: self.price,
            quantity: self.quantity,
            status: self.status,
            category: self.category@,
            created_at: self.created_at,
            updated_at: self.updated_at,
        }
    }
}

impl Clone for Product {
    fn clone(&self) -> (r: Product)
        ensures
            r@ == self@,
    {
        Product {
            id: self.id,
            name: self.name.clone(),
            description: self.description.clone(),
            manufacturer: self.manufacturer,
            current_owner: self.current_owner,
            price: self.price,
            quantity: self.quantity,
            status: self.status,
            category: self.category.clone(),
            created_at: self.created_at,
            updated_at: self.updated_at,
        }
    }
}

/// One record of the audit trail: something that happened to a product.
/// Events are appended on successful transitions and never mutated or
/// removed.
#[derive(Debug)]
pub struct ProductEvent {
    pub product_id: u64,
    /// A tag naming the transition: "Created", "Transferred" or "Sold".
    pub event_type: String,
    pub description: String,
    pub from_user: Identity,
    pub to_user: Identity,
    pub timestamp: u64,
}

/// The model of a [`ProductEvent`].
#[verifier::ext_equal]
pub ghost struct EventModel {
    pub product_id: u64,
    pub event_type: Seq<char>,
    pub description: Seq<char>,
    pub from_user: Identity,
    pub to_user: Identity,
    pub timestamp: u64,
}

impl View for ProductEvent {
    type V = EventModel;

    open spec fn view(&self) -> EventModel {
        EventModel {
            product_id: self.product_id,
            event_type: self.event_type@,
            description: self.description@,
            from_user: self.from_user,
            to_user: self.to_user,
            timestamp: self.timestamp,
        }
    }
}

impl Clone for ProductEvent {
    fn clone(&self) -> (r: ProductEvent)
        ensures
            r@ == self@,
    {
        ProductEvent {
            product_id: self.product_id,
            event_type: self.event_type.clone(),
            description: self.description.clone(),
            from_user: self.from_user,
            to_user: self.to_user,
            timestamp: self.timestamp,
        }
    }
}

} // verus!
