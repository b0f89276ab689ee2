use vstd::prelude::*;

verus! {

/// What can go wrong while messages are fetched or the result is posted.
#[derive(Debug)]
pub enum Error {
    /// A failure described by a message built at run time.
    Generic(String),
    /// A failure described by a fixed message.
    Static(&'static str),
    /// The transport failed: the request could not be built, sent or read.
    Transport(String),
    /// The service answered that the caller is sending requests too fast,
    /// and did so again after the one retry that is allowed.
    RateLimited,
    /// A page arrived but its payload was not a list of messages.
    Parse(String),
}

impl Error {
    /// Whether a fetch that ended in this error was refused for its rate
    /// rather than broken.
    pub open spec fn is_rate_limit(self) -> bool {
        self is RateLimited
    }

    /// Tells a rate-limit refusal from every other failure.
    pub fn rate_limited(&self) -> (b: bool)
        ensures
            b == self.is_rate_limit(),
    {
        match self {
            Error::RateLimited => true,
            _ => false,
        }
    }
}

} // verus!
