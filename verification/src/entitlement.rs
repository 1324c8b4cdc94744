//! Entitlements and the events that they give rise to.

use std::time::SystemTime;

use vstd::prelude::*;

verus! {

/// What an entitlement is issued for.
#[derive(Clone, Copy, Debug, PartialEq, Eq, Structural)]
pub enum Audience {
    SelfHosted,
    Cloud,
}

/// One value, or a list of them.
#[derive(Debug)]
pub enum OneOrMany<T> {
    One(T),
    Many(Vec<T>),
}

/// What an entitlement claims.
#[derive(Debug)]
pub struct Claims {
    pub iss: String,
    pub sub: String,
    pub aud: OneOrMany<Audience>,
    /// When to start warning.
    pub warn_at: SystemTime,
    /// When to halt.
    pub halt_at: SystemTime,
}

/// An entitlement, with or without claims.
#[derive(Debug)]
pub struct Entitlement {
    pub claims: Option<Claims>,
}

impl Default for Entitlement {
    /// The entitlement without claims.
    fn default() -> (entitlement: Self)
        ensures
            entitlement.claims is None,
    {
        Entitlement { claims: None }
    }
}

/// How far an entitlement has run its course.
#[derive(Clone, Copy, Debug, PartialEq, Eq, Structural)]
pub enum EntitlementState {
    /// The boundaries lie ahead.
    Entitled,
    /// The warn boundary has passed.
    EntitledWarn,
    /// The halt boundary has passed.
    EntitledHalt,
    /// There are no claims.
    Unentitled,
}

/// What the stream of entitlements reports.
#[derive(Clone, Copy, Debug, PartialEq, Eq, Structural)]
pub enum Event {
    UpdateEntitlement(EntitlementState),
}

} // verus!
