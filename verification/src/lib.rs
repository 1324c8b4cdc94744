//! Entitlement updates as a stream of events, with the checks that follow from
//! each entitlement's warn and halt boundaries.

pub mod checks;
pub mod clock;
pub mod earlier;
pub mod entitlement;
pub mod expander;
pub mod laws;
pub mod moment;
pub mod runs;
pub mod timer;
pub mod uplink;
