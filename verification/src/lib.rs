//! A verified core for an off-thread masonry layout service.
//!
//! The library models the three pieces that make the service work:
//! the layout engine ([`layout`]), which turns per-item dimensions into
//! per-item transforms and a total extent; the textual transform record
//! ([`record`]); and the single-slot mailbox handoff protocol together
//! with the orchestrator state machine ([`worker`]).

pub mod layout;
pub mod record;
pub mod worker;
