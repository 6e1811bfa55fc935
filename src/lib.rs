//! An in-memory map from nonzero integer keys to nonzero integer values,
//! backed by a sharded concurrent table, with batched operations and
//! detached snapshots that are read through a cursor. The value `0` means
//! "absent" and is never stored.
mod backing;
pub mod laws;
pub mod map;
pub mod snapshot;

pub use map::{
    alchemist_map_batch_get, alchemist_map_batch_remove, alchemist_map_batch_set,
    alchemist_map_destroy, alchemist_map_get, alchemist_map_new, alchemist_map_remove,
    alchemist_map_set, AlchemistMap,
};
pub use snapshot::{
    alchemist_map_iterator_destroy, alchemist_map_iterator_new, alchemist_map_iterator_next,
    alchemist_map_iterator_next_batch, AlchemistMapIterator,
};
