//! Inviting a peer to pair: where the invitation leads.
use crate::control::{Problem, ProblemView};
use crate::control;
use vstd::prelude::*;
use vstd::string::*;

verus! {

/// How long an invitation is good for, in seconds.
pub const INVITATION_SECS: i64 = 900;

/// How often an invitation can be tried.
pub const INVITATION_ATTEMPTS: u32 = 5;

/// The URL of an invitation, or why there is none.
pub open spec fn invitation_target(pair_addr: Option<Seq<char>>) -> Result<Seq<char>, ProblemView> {
    match pair_addr {
        None => Err(
            control::problem_of(
                409,
                "pairing-not-enabled"@,
                "the pairing endpoint is not configured (set AKSON_PAIR_ADDR)"@,
            ),
        ),
        Some(addr) => Ok("https://"@ + addr + "/bootstrap"@),
    }
}

/// The URL of an invitation. It needs an address at which pairing is served.
pub fn invitation_url(pair_addr: Option<&str>) -> (r: Result<String, Problem>)
    ensures
        match (r, invitation_target(crate::text::view_str(pair_addr))) {
            (Ok(url), Ok(u)) => url@ == u,
            (Err(p), Err(q)) => p@ == q,
            _ => false,
        },
{
    match pair_addr {
        None => Err(
            Problem::new(
                409,
                "pairing-not-enabled",
                "the pairing endpoint is not configured (set AKSON_PAIR_ADDR)",
            ),
        ),
        Some(addr) => Ok("https://".to_owned().concat(addr).concat("/bootstrap")),
    }
}

/// Why pairing cannot be served.
#[derive(Debug, Clone, PartialEq, Eq)]
pub enum PairServeError {
    /// The listener failed.
    Io(String),
    /// There is no material to offer to a peer that pairs.
    Material(String),
    /// The channel could not be configured.
    Tls(String),
}

/// What is said where pairing cannot be served.
pub open spec fn serve_error_text(e: PairServeError) -> Seq<char> {
    match e {
        PairServeError::Io(why) => "io: "@ + why@,
        PairServeError::Material(why) => "material: "@ + why@,
        PairServeError::Tls(why) => "tls: "@ + why@,
    }
}

impl PairServeError {
    /// Without the material of this endpoint, pairing is not served: the title of the
    /// problem says why.
    pub fn material(problem: &Problem) -> (e: PairServeError)
        ensures
            e is Material,
            serve_error_text(e) == "material: "@ + problem@.title,
    {
        PairServeError::Material(problem.title.clone())
    }

    /// What is said of it.
    pub fn message(&self) -> (s: String)
        ensures
            s@ == serve_error_text(*self),
    {
        match self {
            PairServeError::Io(why) => "io: ".to_owned().concat(why),
            PairServeError::Material(why) => "material: ".to_owned().concat(why),
            PairServeError::Tls(why) => "tls: ".to_owned().concat(why),
        }
    }
}

} // verus!
