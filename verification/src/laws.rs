//! Laws of the supply chain, proved from the transition functions alone.
//!
//! Each executable operation promises exactly its transition function, so
//! everything proved here holds of the running store as well.

use vstd::prelude::*;

use crate::transitions::{
    create_product_spec, lookup_product, lookup_user, register_user_spec, sell_product_spec,
    transfer_product_spec, update_user_role_spec, StateModel,
};
use crate::types::{Error, EventModel, Identity, ProductModel, UserModel, UserRole};

verus! {

/// Registration is unique per identity: once a `register_user` call has
/// succeeded for a caller, every later `register_user` call for the same
/// caller fails with `AlreadyRegistered`, whatever it asks for.
pub proof fn lemma_register_unique(
    s: StateModel,
    caller: Identity,
    name1: Seq<char>,
    role1: UserRole,
    email1: Option<Seq<char>>,
    company1: Option<Seq<char>>,
    now1: u64,
    name2: Seq<char>,
    role2: UserRole,
    email2: Option<Seq<char>>,
    company2: Option<Seq<char>>,
    now2: u64,
)
    requires
        register_user_spec(s, caller, name1, role1, email1, company1, now1).1 is Ok,
    ensures
        register_user_spec(
            register_user_spec(s, caller, name1, role1, email1, company1, now1).0,
            caller,
            name2,
            role2,
            email2,
            company2,
            now2,
        ).1 == Err::<UserModel, Error>(Error::AlreadyRegistered),
{
}

/// One call of `transfer_product`, as a value: who moved custody where,
/// with what note, and when.
pub ghost struct TransferCall {
    pub caller: Identity,
    pub to_user: Identity,
    pub description: Seq<char>,
    pub now: u64,
}

/// The state after a chain of `transfer_product` calls for one product,
/// applied first to last.
pub open spec fn apply_transfers(s: StateModel, product_id: u64, calls: Seq<TransferCall>) -> StateModel
    decreases calls.len(),
{
    if calls.len() == 0 {
        s
    } else {
        let first = calls[0];
        apply_transfers(
            transfer_product_spec(
                s,
                first.caller,
                product_id,
                first.to_user,
                first.description,
                first.now,
            ).0,
            product_id,
            calls.drop_first(),
        )
    }
}

/// Whether every call of the chain succeeds, each against the state the
/// calls before it left behind.
pub open spec fn transfers_succeed(s: StateModel, product_id: u64, calls: Seq<TransferCall>) -> bool
    decreases calls.len(),
{
    calls.len() == 0 || {
        let first = calls[0];
        let (s2, r) = transfer_product_spec(
            s,
            first.caller,
            product_id,
            first.to_user,
            first.description,
            first.now,
        );
        r is Ok && transfers_succeed(s2, product_id, calls.drop_first())
    }
}

/// Ownership follows the transfer history: after any chain of successful
/// transfers, the product's current owner is the destination of the last
/// one, the log has grown by exactly one event per transfer, and the last
/// event is the "Transferred" record of that last call.
pub proof fn lemma_owner_after_transfers(s: StateModel, product_id: u64, calls: Seq<TransferCall>)
    requires
        transfers_succeed(s, product_id, calls),
        calls.len() > 0,
    ensures
        ({
            let s2 = apply_transfers(s, product_id, calls);
            &&& (product_id as int) < s2.products.len()
            &&& s2.products.len() == s.products.len()
            &&& s2.products[product_id as int].current_owner == calls.last().to_user
            &&& s2.events.len() == s.events.len() + calls.len()
            &&& s2.events.last() == (EventModel {
                product_id,
                event_type: "Transferred"@,
                description: calls.last().description,
                from_user: calls.last().caller,
                to_user: calls.last().to_user,
                timestamp: calls.last().now,
            })
        }),
    decreases calls.len(),
{
    let first = calls[0];
    let (s1, r) = transfer_product_spec(
        s,
        first.caller,
        product_id,
        first.to_user,
        first.description,
        first.now,
    );
    assert(transfers_succeed(s, product_id, calls));
    assert(r is Ok);
    assert((product_id as int) < s.products.len());
    assert(apply_transfers(s, product_id, calls) == apply_transfers(
        s1,
        product_id,
        calls.drop_first(),
    ));
    if calls.len() == 1 {
        assert(calls.last() == first);
        assert(calls.drop_first().len() == 0);
        assert(apply_transfers(s1, product_id, calls.drop_first()) == s1);
    } else {
        lemma_owner_after_transfers(s1, product_id, calls.drop_first());
        assert(calls.drop_first().last() == calls.last());
    }
}

/// A failed transfer moves nothing and records nothing: whenever
/// `transfer_product` returns an error, the state — products, owners and
/// event log alike — is exactly what it was.
pub proof fn lemma_failed_transfer_unchanged(
    s: StateModel,
    caller: Identity,
    product_id: u64,
    to_user: Identity,
    description: Seq<char>,
    now: u64,
)
    requires
        transfer_product_spec(s, caller, product_id, to_user, description, now).1 is Err,
    ensures
        transfer_product_spec(s, caller, product_id, to_user, description, now).0 == s,
{
}

/// The role-pair rule stands: a product held by its Manufacturer can go
/// nowhere but to a registered Distributor. Aimed anywhere else — at an
/// unregistered identity or at any other role — the transfer fails with
/// `RoleViolation` and the owner does not change.
pub proof fn lemma_role_pair_enforced(
    s: StateModel,
    caller: Identity,
    product_id: u64,
    to_user: Identity,
    description: Seq<char>,
    now: u64,
)
    requires
        lookup_user(s, caller) matches Some(u) && u.role == UserRole::Manufacturer,
        !(lookup_user(s, to_user) matches Some(t) && t.role == UserRole::Distributor),
    ensures
        transfer_product_spec(s, caller, product_id, to_user, description, now).0 == s,
        transfer_product_spec(s, caller, product_id, to_user, description, now).1 is Err,
        (lookup_product(s, product_id) matches Some(p) && p.current_owner == caller)
            ==> transfer_product_spec(s, caller, product_id, to_user, description, now).1
            == Err::<ProductModel, Error>(Error::RoleViolation),
{
}

/// Stock never goes negative: a sale of more than is in stock fails with
/// `InsufficientStock` and leaves the whole state — the product record
/// included — exactly as it was.
pub proof fn lemma_insufficient_stock_unchanged(
    s: StateModel,
    caller: Identity,
    product_id: u64,
    customer: Identity,
    quantity: u32,
    description: Seq<char>,
    now: u64,
)
    requires
        lookup_user(s, caller) matches Some(u) && u.role == UserRole::Retailer,
        lookup_product(s, product_id) matches Some(p) && p.current_owner == caller && p.quantity
            < quantity,
    ensures
        sell_product_spec(s, caller, product_id, customer, quantity, description, now) == (
            s,
            Err::<ProductModel, Error>(Error::InsufficientStock),
        ),
{
}

/// A successful sale removes exactly what was sold, never more than was
/// there; a failed sale removes nothing.
pub proof fn lemma_sell_bounds(
    s: StateModel,
    caller: Identity,
    product_id: u64,
    customer: Identity,
    quantity: u32,
    description: Seq<char>,
    now: u64,
)
    ensures
        ({
            let (s2, r) = sell_product_spec(s, caller, product_id, customer, quantity, description, now);
            &&& r is Ok ==> {
                &&& (product_id as int) < s.products.len()
                &&& quantity <= s.products[product_id as int].quantity
                &&& s2.products[product_id as int].quantity == s.products[product_id as int].quantity
                    - quantity
            }
            &&& r is Err ==> s2 == s
        }),
{
}

/// The event log is append-only: whatever any operation does, and whether
/// it succeeds or fails, every event already recorded stays, in place and
/// in order; at most one new event is appended after them.
pub proof fn lemma_log_append_only(
    s: StateModel,
    caller: Identity,
    product_id: u64,
    other: Identity,
    name: Seq<char>,
    description: Seq<char>,
    role: UserRole,
    email: Option<Seq<char>>,
    company: Option<Seq<char>>,
    price: u64,
    quantity: u32,
    now: u64,
)
    ensures
        register_user_spec(s, caller, name, role, email, company, now).0.events == s.events,
        update_user_role_spec(s, caller, role).0.events == s.events,
        s.events.is_prefix_of(
            create_product_spec(s, caller, name, description, price, quantity, name, now).0.events,
        ),
        s.events.is_prefix_of(
            transfer_product_spec(s, caller, product_id, other, description, now).0.events,
        ),
        s.events.is_prefix_of(
            sell_product_spec(s, caller, product_id, other, quantity, description, now).0.events,
        ),
{
    assert(s.events.is_prefix_of(s.events)) by {
        assert(s.events.subrange(0, s.events.len() as int) =~= s.events);
    }
    let e1 = create_product_spec(s, caller, name, description, price, quantity, name, now).0.events;
    let e2 = transfer_product_spec(s, caller, product_id, other, description, now).0.events;
    let e3 = sell_product_spec(s, caller, product_id, other, quantity, description, now).0.events;
    assert(s.events.is_prefix_of(e1)) by {
        assert(e1.subrange(0, s.events.len() as int) =~= s.events);
    }
    assert(s.events.is_prefix_of(e2)) by {
        assert(e2.subrange(0, s.events.len() as int) =~= s.events);
    }
    assert(s.events.is_prefix_of(e3)) by {
        assert(e3.subrange(0, s.events.len() as int) =~= s.events);
    }
}

} // verus!
