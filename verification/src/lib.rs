//! An in-memory event log of short text notices ("beeps") together with the
//! handler cores of the small web service built around it: bearer-credential
//! gated append, snapshot reads, and newest-first presentation.

pub mod clock;
pub mod handlers;
pub mod laws;
pub mod store;
