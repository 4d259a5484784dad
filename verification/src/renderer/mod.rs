//! What every backend offers, and the dispatcher that offers the same over
//! whichever backend is running.
pub mod generic;
pub mod runtime;
