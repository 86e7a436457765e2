//! View-state synchronization core for a quotes-catalog browser client.
//!
//! The library holds the logic that a rendering shell drives: the shared
//! entity records served by the quotes API, the classification of fetch
//! outcomes, the per-view resource binding with its owner-token staleness
//! rule, the pure derivation of page models from settled view state, and
//! the submission form's accumulation of a new quote.

pub mod binding;
pub mod fetch;
pub mod model;
pub mod render;
pub mod submit;
