//! A handle-based boundary layer over a wallet engine: byte buffers, keys,
//! contacts, transactions and their collections, error records and callback
//! dispatch, each with the sentinel conventions that a foreign caller relies on.
use vstd::prelude::*;

pub mod byte_vector;
pub mod error;
pub mod keys;
pub mod contacts;
pub mod transactions;
pub mod callbacks;
pub mod wallet;
