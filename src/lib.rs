//! Supervision of the dendrite worker process: one tracked worker at a time, its
//! output scanned for a service port and for errors, and bounded waits when stopping.

pub mod lifecycle;
pub mod port;
pub mod resolve;
pub mod stopping;
pub mod supervisor;
