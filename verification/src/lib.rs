//! A verified receipt-printing pipeline: printer discovery guarded by a
//! platform probe, printer selection with fallback, rendering of receipt
//! content into a printable document, and a state machine that tracks the
//! temporary artifact from write to guaranteed removal.

pub mod discovery;
pub mod error;
pub mod event;
pub mod pipeline;
pub mod printer;
pub mod probe;
pub mod render;
pub mod selector;
