//! A minimal terminal dashboard: a fixed table of database-connection rows,
//! a wraparound row selection moved with arrow keys, confirmed with Enter,
//! quit with 'q'. This crate holds the verified core: the row data, the
//! selection state machine, and the per-key dispatch of the interaction loop.
//! Terminal setup, event reading and widget drawing live outside it.

pub mod app;
pub mod events;
pub mod rows;
