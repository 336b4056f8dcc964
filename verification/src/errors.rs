use vstd::prelude::*;

verus! {

/// How a persistence call can fail, as the core sees it: the entity is
/// absent, a uniqueness constraint was violated, or the store had
/// transient trouble. The core never inspects store detail beyond this.
#[derive(Debug, Clone, Copy, PartialEq, Eq, Structural)]
pub enum StoreError {
    NotFound,
    Conflict,
    Unavailable,
}

/// The closed taxonomy every gate failure and handler failure maps
/// into. `NotFound`: the entity is absent. `Forbidden`: a gate or a
/// board-phase check denied the request. `Conflict`: a uniqueness
/// violation during get-or-create, recoverable by re-reading and
/// retrying the increment once. `Unavailable`: transient store failure.
#[derive(Debug, Clone, Copy, PartialEq, Eq, Structural)]
pub enum Error {
    NotFound,
    Forbidden,
    Conflict,
    Unavailable,
}

/// How a failed entity lookup surfaces: a missing entity is reported as
/// such, anything else as server-side trouble.
pub open spec fn spec_store_failure(e: StoreError) -> Error {
    match e {
        StoreError::NotFound => Error::NotFound,
        _ => Error::Unavailable,
    }
}

/// Maps a failed lookup's store error to the request's error.
pub fn store_failure(e: StoreError) -> (r: Error)
    ensures
        r == spec_store_failure(e),
{
    match e {
        StoreError::NotFound => Error::NotFound,
        _ => Error::Unavailable,
    }
}

impl Error {
    /// The wire status each error surfaces as: 404 for a missing
    /// entity, 403 for a gate or phase denial, 500 for store trouble
    /// (a conflict that survives the local retry is store trouble too).
    pub open spec fn spec_status(self) -> u16 {
        match self {
            Error::NotFound => 404,
            Error::Forbidden => 403,
            _ => 500,
        }
    }

    /// The wire status code for this error.
    pub fn status(&self) -> (s: u16)
        ensures
            s == self.spec_status(),
    {
        match self {
            Error::NotFound => 404,
            Error::Forbidden => 403,
            _ => 500,
        }
    }
}

} // verus!
