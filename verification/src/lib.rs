//! Input-capture subsystem for a small microcontroller board.
//!
//! Asynchronous hardware events (a periodic counter tick, or edge-triggered
//! pin interrupts) are turned into a consistent, race-free button-state
//! snapshot that a foreground loop can read at any time.  The hardware
//! peripherals themselves (counter, edge detectors, input lines) are external
//! collaborators; this crate holds the decision logic and the published
//! state, each function with a proved contract.

pub mod capture;
pub mod config;
pub mod edges;
pub mod foreground;
pub mod snapshot;
pub mod store;
