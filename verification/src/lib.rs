//! A heterogeneous object store: one container that holds values of several
//! unrelated types, each type kept in its own densely packed, generation
//! checked arena and addressed by strongly typed, copyable identifiers.
//!
//! The `Store` multiplexes one generational [`Arena`] per stored type.
//! Identifiers ([`Id`]) carry a slot position and a generation; after a value
//! is removed, every identifier minted for the old occupant of its slot goes
//! stale and is answered with `None`, never with another value's data.

mod arena;
mod globals;
mod store;

pub use arena::Arena;
pub use arena::Id;
pub use arena::insert_effect;
pub use arena::lemma_append_extends_ids;
pub use arena::lemma_empty_arena;
pub use arena::lemma_generation_invalidation;
pub use arena::lemma_ids_characterize;
pub use arena::lemma_insert_round_trip;
pub use arena::lemma_mutation_visible;
pub use arena::lemma_update_preserves_ids;
pub use arena::remove_effect;
pub use arena::slot_unchanged;
pub use arena::update2_effect;
pub use arena::update_effect;
pub use globals::Storage;
pub use globals::StorageMutGuard;
pub use globals::claim_effect;
pub use globals::get_storage_mut;
pub use globals::lemma_no_double_borrow;
pub use globals::release_storage;
pub use store::Storable;
pub use store::Store;
pub use store::lemma_empty_store;
pub use store::lemma_put_bool_isolated;
pub use store::lemma_put_i32_isolated;
pub use store::lemma_put_i64_isolated;
pub use store::lemma_put_string_isolated;
pub use store::lemma_store_generation_invalidation;
pub use store::lemma_store_round_trip;
