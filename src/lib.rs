//! Script activation: deciding when, and exactly once, the code held by a
//! script element is classified, resolved and handed to an execution engine.

pub mod classify;
pub mod resolve;
pub mod element;
