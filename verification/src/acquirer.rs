//! The two ways to a bearer token, behind one choice.

use crate::browser::BrowserOptions;
use vstd::prelude::*;

verus! {

/// How the bearer token of an account is acquired. Both ways take the same credentials
/// and end with the same kind of token.
#[derive(Clone, Debug)]
pub enum TokenAcquirer {
    /// By HTTP requests alone.
    HttpFlow,
    /// Through a browser that a driver automates.
    BrowserFlow(BrowserOptions),
}

impl TokenAcquirer {
    /// The way that an operator's configuration asks for: through a browser where the
    /// configuration holds options for one, else by HTTP requests alone.
    pub fn select(browser: Option<BrowserOptions>) -> (acquirer: TokenAcquirer)
        ensures
            acquirer == match browser {
                Some(options) => TokenAcquirer::BrowserFlow(options),
                None => TokenAcquirer::HttpFlow,
            },
    {
        match browser {
            Some(options) => TokenAcquirer::BrowserFlow(options),
            None => TokenAcquirer::HttpFlow,
        }
    }

    /// Whether this way needs a browser.
    pub fn needs_browser(&self) -> (needed: bool)
        ensures
            needed == (self is BrowserFlow),
    {
        match self {
            TokenAcquirer::HttpFlow => false,
            TokenAcquirer::BrowserFlow(_) => true,
        }
    }
}

} // verus!
