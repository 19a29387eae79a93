//! Size-based choice between uploading an asset and linking to it.
use vstd::prelude::*;

verus! {

/// Largest asset, in bytes, that is uploaded inline (50 MiB).
pub const SIZE_THRESHOLD: u64 = 50 * 1024 * 1024;

/// How one asset reaches the chat.
#[derive(Clone, Copy, Debug, PartialEq, Eq, Structural)]
pub enum Route {
    /// The asset body is sent as a document upload.
    Upload,
    /// The asset is listed, with a retrieval command, in one text message.
    Link,
}

/// A known size in `(0, SIZE_THRESHOLD]` is uploaded; zero (unknown) and
/// anything larger is linked.
pub open spec fn route_for_size(size: int) -> Route {
    if 0 < size && size <= SIZE_THRESHOLD as int {
        Route::Upload
    } else {
        Route::Link
    }
}

/// Routes an asset by its probed size in bytes; 0 stands for "unknown".
pub fn classify(size: u64) -> (r: Route)
    ensures
        r == route_for_size(size as int),
{
    if 0 < size && size <= SIZE_THRESHOLD {
        Route::Upload
    } else {
        Route::Link
    }
}

/// Routes an asset by the outcome of its size probe: a failed probe is
/// treated like an unknown size and linked, never skipped.
pub fn classify_probe(probe: Option<u64>) -> (r: Route)
    ensures
        r == match probe {
            Some(size) => route_for_size(size as int),
            None => Route::Link,
        },
{
    match probe {
        Some(size) => classify(size),
        None => Route::Link,
    }
}

/// An unknown size (zero) and any size above the threshold are linked;
/// sizes from one byte up to the threshold are uploaded.
pub proof fn lemma_route_boundaries(size: u64)
    ensures
        size == 0 ==> route_for_size(size as int) == Route::Link,
        size > SIZE_THRESHOLD ==> route_for_size(size as int) == Route::Link,
        0 < size <= SIZE_THRESHOLD ==> route_for_size(size as int) == Route::Upload,
        route_for_size(52428800) == Route::Upload,
        route_for_size(52428801) == Route::Link,
{
}

} // verus!
