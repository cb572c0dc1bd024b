//! The values that travel through a login: where the client wants to go
//! afterwards, and what the identity provider hands back.

use vstd::prelude::*;

verus! {

/// The query of the request that starts a login.
#[derive(Debug)]
pub struct RedirectQuery {
    /// The page to show once the login is done.
    pub next: Option<String>,
}

/// What is carried through the identity provider and back.
#[derive(Debug)]
pub struct AuthState<'a> {
    /// The page to show once the login is done.
    pub next: Option<&'a str>,
}

/// The query of the request that the identity provider redirects to.
#[derive(Debug)]
pub struct LoginQuery {
    /// The code to exchange for a token.
    pub code: String,
    /// The state that was carried through, still encoded.
    pub state: Option<String>,
}

impl RedirectQuery {
    /// The state to carry through the login that this query starts.
    pub fn auth_state<'a>(&'a self) -> (state: AuthState<'a>)
        ensures
            match self.next {
                None => state.next is None,
                Some(next) => state.next matches Some(carried) && carried@ == next@,
            },
    {
        match &self.next {
            None => AuthState { next: None },
            Some(next) => AuthState { next: Some(next.as_str()) },
        }
    }
}

/// The page to show after a login: the one the state names, else the
/// home page.
pub open spec fn destination_of(state: Option<AuthState>) -> Seq<char> {
    match state {
        Some(AuthState { next: Some(next) }) => next@,
        _ => "/"@,
    }
}

/// The page to show after a login that carried `state` through.
pub fn redirect_destination<'a>(state: &Option<AuthState<'a>>) -> (dest: &'a str)
    ensures
        dest@ == destination_of(*state),
{
    match state {
        Some(AuthState { next: Some(next) }) => next,
        _ => "/",
    }
}

} // verus!
