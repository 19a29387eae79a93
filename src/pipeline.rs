//! The decisions of one polling run. The caller performs each network or
//! file step and hands the result back; everything decided from those
//! results is here.
use vstd::prelude::*;
use crate::record::{map_of, VersionRecord};
use crate::release::{Asset, FetchError, Release};
use crate::routing::{classify_probe, Route};
use crate::text::{caption_text, link_message, link_message_text, upload_caption};

verus! {

/// Whether `tag` is news for `repo` under the record `m`: nothing recorded,
/// or a recorded tag that differs.
pub open spec fn tag_is_new(m: Map<Seq<char>, Seq<char>>, repo: Seq<char>, tag: Seq<char>) -> bool {
    !(m.contains_key(repo) && m[repo] == tag)
}

/// What to do with a repository once its fetch has been attempted.
#[derive(Debug)]
pub enum Step {
    /// The fetch failed: report it and go on with the next repository.
    Report(FetchError),
    /// The latest tag was already processed: nothing is sent or written.
    Unchanged,
    /// A new release: deliver its assets, then record its tag.
    Deliver(Release),
}

/// Decides what to do with `repo` from the result of fetching its latest
/// release.
pub fn next_step(record: &VersionRecord, repo: &str, fetched: Result<Release, FetchError>) -> (r: Step)
    requires
        record.wf(),
    ensures
        fetched matches Err(e) ==> r == Step::Report(e),
        fetched matches Ok(rel) ==> (if tag_is_new(record@, repo@, rel.tag_name@) {
            r == Step::Deliver(rel)
        } else {
            r == Step::Unchanged
        }),
{
    match fetched {
        Err(e) => Step::Report(e),
        Ok(rel) => {
            if record.has_changed(repo, rel.tag_name.as_str()) {
                Step::Deliver(rel)
            } else {
                Step::Unchanged
            }
        },
    }
}

/// How one release is delivered, decided from its assets' size probes.
pub struct DeliveryPlan {
    /// The route of each asset, in release order.
    pub routes: Vec<Route>,
    /// For each asset, the caption of its upload; `None` when it is linked.
    pub captions: Vec<Option<String>>,
    /// The single text message listing the linked assets, if any is linked.
    pub message: Option<String>,
}

/// The route that a probe outcome gives.
pub open spec fn route_of_probe(probe: Option<u64>) -> Route {
    match probe {
        Some(size) => crate::routing::route_for_size(size as int),
        None => Route::Link,
    }
}

/// Plans the delivery of a new release of `repo` from the size probe of
/// each asset (`probes[i]` for the i-th asset; `None` where the probe
/// failed, `Some(0)` where the size is unknown).
pub fn plan_delivery(repo: &str, release: &Release, probes: &Vec<Option<u64>>) -> (r: DeliveryPlan)
    requires
        probes@.len() == release.assets@.len(),
    ensures
        r.routes@.len() == release.assets@.len(),
        r.captions@.len() == release.assets@.len(),
        forall|i: int| 0 <= i < release.assets@.len() ==> r.routes@[i] == route_of_probe(#[trigger] probes@[i]),
        forall|i: int| 0 <= i < release.assets@.len() ==> (#[trigger] r.captions@[i] is Some <==> r.routes@[i] == Route::Upload),
        forall|i: int| 0 <= i < release.assets@.len() && probes@[i] is Some && r.captions@[i] is Some
            ==> (#[trigger] r.captions@[i])->0@ == caption_text(release.assets@[i].name@, probes@[i]->0 as nat),
        r.message matches Some(m) ==> link_message_text(repo@, release.tag_name@, release.assets@, r.routes@) == Some(m@),
        r.message is None ==> link_message_text(repo@, release.tag_name@, release.assets@, r.routes@) is None,
{
    let mut routes: Vec<Route> = Vec::new();
    let mut captions: Vec<Option<String>> = Vec::new();
    let mut i: usize = 0;
    while i < release.assets.len()
        invariant
            i <= release.assets@.len(),
            probes@.len() == release.assets@.len(),
            routes@.len() == i,
            captions@.len() == i,
            forall|j: int| 0 <= j < i ==> routes@[j] == route_of_probe(#[trigger] probes@[j]),
            forall|j: int| 0 <= j < i ==> (#[trigger] captions@[j] is Some <==> routes@[j] == Route::Upload),
            forall|j: int| 0 <= j < i && probes@[j] is Some && captions@[j] is Some
                ==> (#[trigger] captions@[j])->0@ == caption_text(release.assets@[j].name@, probes@[j]->0 as nat),
        decreases release.assets@.len() - i,
    {
        let route = classify_probe(probes[i]);
        let caption = match (route, probes[i]) {
            (Route::Upload, Some(size)) => Some(upload_caption(release.assets[i].name.as_str(), size)),
            _ => None,
        };
        routes.push(route);
        captions.push(caption);
        i = i + 1;
    }
    let message = link_message(repo, release.tag_name.as_str(), &release.assets, &routes);
    DeliveryPlan { routes, captions, message }
}

/// What became of one asset of a delivered release.
#[derive(Clone, Debug)]
pub enum DeliveryOutcome {
    /// Uploaded as a document.
    Uploaded,
    /// Listed in the release's text message.
    Linked,
    /// Routed to upload, but fetching or sending its body failed.
    DownloadFailed(String),
    /// Its size probe failed; it was linked instead.
    ProbeFailed(String),
}

/// Records what became of one asset: `probe_error` is the probe's failure,
/// if any; `upload_error` the failure of its upload, if it was uploaded and
/// that failed.
pub fn asset_outcome(route: Route, probe_error: Option<String>, upload_error: Option<String>) -> (r: DeliveryOutcome)
    ensures
        route == Route::Upload ==> (match upload_error {
            Some(e) => r == DeliveryOutcome::DownloadFailed(e),
            None => r == DeliveryOutcome::Uploaded,
        }),
        route == Route::Link ==> (match probe_error {
            Some(e) => r == DeliveryOutcome::ProbeFailed(e),
            None => r == DeliveryOutcome::Linked,
        }),
{
    match route {
        Route::Upload => match upload_error {
            Some(e) => DeliveryOutcome::DownloadFailed(e),
            None => DeliveryOutcome::Uploaded,
        },
        Route::Link => match probe_error {
            Some(e) => DeliveryOutcome::ProbeFailed(e),
            None => DeliveryOutcome::Linked,
        },
    }
}

/// A repository with nothing recorded always has news, whatever its tag.
pub proof fn lemma_unrecorded_is_new(m: Map<Seq<char>, Seq<char>>, repo: Seq<char>, tag: Seq<char>)
    requires
        !m.contains_key(repo),
    ensures
        tag_is_new(m, repo, tag),
{
}

/// Saving a record after `tag` was recorded for `repo` and loading it back
/// yields that same tag for `repo`, so the tag is no longer news.
pub proof fn lemma_saved_tag_reloads(
    m: Map<Seq<char>, Seq<char>>,
    repo: Seq<char>,
    tag: Seq<char>,
    saved: Seq<(String, String)>,
)
    requires
        map_of(saved) == m.insert(repo, tag),
    ensures
        map_of(saved).contains_key(repo),
        map_of(saved)[repo] == tag,
        !tag_is_new(map_of(saved), repo, tag),
{
}

/// Process exit status of a run: zero when every repository was fetched
/// and the record was saved, one otherwise.
pub fn exit_status(fetch_failures: usize, save_failed: bool) -> (r: i32)
    ensures
        r == (if fetch_failures == 0 && !save_failed { 0i32 } else { 1i32 }),
{
    if fetch_failures == 0 && !save_failed {
        0
    } else {
        1
    }
}

} // verus!
