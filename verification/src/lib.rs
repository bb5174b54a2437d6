//! A single-owner ticket store driven through a command/response protocol.
//!
//! The store itself ([`store::TicketStore`]) is a keyed collection of tickets
//! with store-assigned, monotonically increasing identifiers. The actor module
//! ([`actor`]) gives the decision core of a server loop that owns one store
//! exclusively and answers `Insert`/`Get` commands one at a time; an unverified
//! shell is expected to run the loop, carrying commands over a bounded queue
//! and each reply over a fresh one-shot slot.
//!
//! The remaining modules hold small, self-contained verified types: a
//! validated order form, a drop-guard flag, a saturating 16-bit counter, and
//! an integer summation routine.

pub mod actor;
pub mod bomb;
pub mod data;
pub mod order;
pub mod saturating;
pub mod store;
pub mod summation;

pub use data::Ticket;
pub use data::TicketDraft;
pub use data::TicketStatus;
pub use store::TicketId;
pub use store::TicketStore;
