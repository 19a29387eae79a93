//! The release record fetched from the repository host, and how a fetch
//! attempt turns into a release or an error.
use vstd::prelude::*;

verus! {

/// One downloadable file attached to a release.
#[derive(Clone, Debug)]
pub struct Asset {
    pub name: String,
    pub browser_download_url: String,
}

/// The latest release of a repository: its tag is the only key used for
/// change detection.
#[derive(Clone, Debug)]
pub struct Release {
    pub tag_name: String,
    pub name: Option<String>,
    pub body: Option<String>,
    pub assets: Vec<Asset>,
}

/// Why a release could not be fetched.
#[derive(Clone, Copy, Debug, PartialEq, Eq, Structural)]
pub enum FetchError {
    /// The host answered 404 for the repository or its latest release.
    NotFound,
    /// The request did not complete (connection, DNS, timeout).
    Transport,
    /// The response body is not a release.
    Decode,
}

/// HTTP status of a "not found" answer.
pub const STATUS_NOT_FOUND: u16 = 404;

/// What a fetch attempt yields, given whether the request completed, the
/// status it got, and the release decoded from its body, if any.
pub open spec fn fetch_outcome_spec(completed: bool, status: u16, decoded: Option<Release>) -> Result<Release, FetchError> {
    if !completed {
        Err(FetchError::Transport)
    } else if status == STATUS_NOT_FOUND {
        Err(FetchError::NotFound)
    } else {
        match decoded {
            Some(r) => Ok(r),
            None => Err(FetchError::Decode),
        }
    }
}

/// Classifies one fetch attempt: a transport failure wins, then a 404, then
/// a body that did not decode.
pub fn fetch_outcome(completed: bool, status: u16, decoded: Option<Release>) -> (r: Result<Release, FetchError>)
    ensures
        r == fetch_outcome_spec(completed, status, decoded),
{
    if !completed {
        Err(FetchError::Transport)
    } else if status == STATUS_NOT_FOUND {
        Err(FetchError::NotFound)
    } else {
        match decoded {
            Some(r) => Ok(r),
            None => Err(FetchError::Decode),
        }
    }
}

} // verus!
