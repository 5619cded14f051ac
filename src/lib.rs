//! A spaced-repetition review scheduler: per-item memory records updated by an
//! SM-2 style rule, a deck that picks due items and reschedules them, and a
//! review session state machine that walks a reader through the due items.

mod clock;
pub mod memory;
pub mod deck;
pub mod error;
pub mod session;
