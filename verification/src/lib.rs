//! A minimal supply-chain tracking library.
//!
//! Users register under a role (Manufacturer, Distributor, Retailer or
//! Customer); Manufacturers create products; products move along the chain
//! Manufacturer -> Distributor -> Retailer, and Retailers sell stock to
//! customers. Every successful change of custody or stock is recorded in an
//! append-only event log.
//!
//! All state lives in a [`SupplyChain`] value. The caller's identity and the
//! current time are opaque inputs supplied by the host on every call: the
//! library only compares identities for equality and stores timestamps.

mod laws;
mod state;
mod transitions;
mod types;

pub use laws::{
    apply_transfers, lemma_failed_transfer_unchanged, lemma_insufficient_stock_unchanged,
    lemma_log_append_only, lemma_owner_after_transfers, lemma_register_unique,
    lemma_role_pair_enforced, lemma_sell_bounds, transfers_succeed, TransferCall,
};
pub use state::{
    events_view, product_opt_matches, product_result_matches, products_view, user_opt_matches,
    user_result_matches, users_view, SupplyChain,
};
pub use transitions::{
    create_product_spec, created_description, events_for, lemma_events_for_push, lookup_product,
    lookup_user, next_product_id, register_user_spec, sell_product_spec, transfer_allowed,
    transfer_product_spec, update_user_role_spec, StateModel,
};
pub use types::{
    opt_text, Error, EventModel, Identity, Product, ProductEvent, ProductModel, ProductStatus,
    User, UserModel, UserRole,
};
