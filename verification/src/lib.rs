//! A personal travel plan: an ordered list of trips that can be extended,
//! edited field by field, shortened and listed with its fare total.
//!
//! Every function here works on plain values. Reading the persisted
//! document, writing it back and talking to the user are left to the caller.

pub mod decimal;
pub mod editor;
pub mod listing;
pub mod menu;
pub mod prompts;
pub mod session;
pub mod store;
pub mod trip;
