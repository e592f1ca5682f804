//! Change detection for wiki pages and webhook notification of subscribers.
//!
//! The crate watches wiki pages that are rendered as structured data, keeps the
//! last snapshot of each, computes what a fresh snapshot adds to the stored one
//! and tells the registered subscribers about it. Everything that touches the
//! network, the store or the clock is left to the caller: the functions here
//! decide what is to be done next and say so as plain values.

pub mod check_update;
pub mod data_provider;
pub mod interface;
pub mod text;
