//! Browser backends as plain, verified decisions.
//!
//! The library says what a backend sends, in which order, and what it makes of
//! each answer. Sockets, processes and clocks belong to the caller, who
//! performs the calls described here and reports what came back.
pub mod backend;
pub mod camofox;
pub mod codec;
pub mod exchange;
pub mod json;
pub mod launch;
pub mod laws;
pub mod refs;
pub mod text;
pub mod webdriver;
