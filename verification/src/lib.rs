//! Construction and dispatch of cross-program invocations.
//!
//! A caller describes one call as a typed request (which program, which
//! accounts in which roles, which payload), renders it into a wire
//! descriptor with an exact, versioned binary layout, and hands it to a
//! runtime that validates the descriptor against the live accounts,
//! enforces borrow safety at the call boundary, and dispatches to one of
//! the interchangeable backends.

pub mod account;
pub mod data;
pub mod error;
pub mod instruction;
pub mod instructions;
pub mod invoke;
pub mod laws;
pub mod mem;
pub mod pubkey;
pub mod runtime;

pub use pubkey::Pubkey;
