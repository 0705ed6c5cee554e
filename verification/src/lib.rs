//! Core of a data store driver for a flat object store: key addressing,
//! payload encodings, listing aggregation and error normalization, with the
//! network left to the caller.

pub mod backend;
pub mod codec;
pub mod driver;
pub mod error;
pub mod key;
pub mod listing;
pub mod store;
pub mod transfer;
