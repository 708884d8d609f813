//! Decision logic for buying limited marketplace items through a pool of
//! outbound proxies.
//!
//! The crate performs no network or clock access of its own. Every remote
//! exchange is described to it as a plain value after the fact, and every
//! function here decides what that exchange means for the endpoint or the
//! session involved. Callers own the sockets; this crate owns the rules.

use vstd::prelude::*;

pub mod counter;
pub mod header;
pub mod item;
pub mod pool;
pub mod proxy;
pub mod user;

verus! {

/// Everything that can end a purchase attempt early.
#[derive(Debug)]
pub enum Error {
    /// The transport failed before a response arrived. Carries the
    /// transport's own description of the failure.
    Request(String),
    /// The response that should have carried an anti-forgery token had none.
    MissingCSRF,
    /// The remote answered 429 and the endpoint is cooling down now.
    RateLimited,
    /// The endpoint was still cooling down, so nothing was sent.
    OnCooldown,
    /// The cached balance does not cover the expected price.
    Broke,
    /// The remote sent something this crate could not make sense of.
    Other(String),
}

impl Error {
    /// The text shown to a person for this error.
    pub open spec fn message_spec(&self) -> Seq<char> {
        match self {
            Error::Request(detail) => detail@,
            Error::MissingCSRF => "missing x-csrf-token from headers"@,
            Error::RateLimited => "rate limited"@,
            Error::OnCooldown => "on cooldown"@,
            Error::Broke => "cannot afford item"@,
            Error::Other(_) => "an unknown error occured"@,
        }
    }

    /// Whether trying again through another endpoint can help. A transport
    /// failure, a rate limit and a cooldown all belong to the endpoint that
    /// was used. A missing token, a short balance and an unexpected answer
    /// would meet the next endpoint just the same.
    pub fn recoverable(&self) -> (yes: bool)
        ensures
            yes == (self is Request || self is RateLimited || self is OnCooldown),
    {
        match self {
            Error::Request(_) | Error::RateLimited | Error::OnCooldown => true,
            Error::MissingCSRF | Error::Broke | Error::Other(_) => false,
        }
    }

    /// Renders the error for display. A transport failure shows the
    /// transport's own text; every other variant has a fixed message.
    pub fn message(&self) -> (text: String)
        ensures
            text@ == self.message_spec(),
    {
        match self {
            Error::Request(detail) => detail.clone(),
            Error::MissingCSRF => "missing x-csrf-token from headers".to_owned(),
            Error::RateLimited => "rate limited".to_owned(),
            Error::OnCooldown => "on cooldown".to_owned(),
            Error::Broke => "cannot afford item".to_owned(),
            Error::Other(_) => "an unknown error occured".to_owned(),
        }
    }
}

} // verus!
