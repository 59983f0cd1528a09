//! The host-facing service surface.
//!
//! A stateless facade: every operation receives the credential exchange's
//! reply and the collaborators' replies for that one call, decides, and
//! returns. The host layer owns the transport; it authenticates, resolves
//! and transfers outside this crate and hands the replies in as plain
//! values. Nothing here is shared between calls, so independent calls are
//! safe to run in full parallel; a host that prefers one shared session
//! holds a [`crate::session::Session`] and serializes access to it.

use crate::batch::BatchItem;
use crate::batch::batch_outcome;
use crate::download::TransferOutcome;
use crate::download::download_one;
use crate::download::download_outcome;
use crate::errors::RusteerError;
use crate::errors::error_text_view;
use crate::models::BatchDownloadResult;
use crate::models::DownloadResult;
use crate::models::StreamingUrl;
use crate::models::Track;
use crate::quality::DownloadQuality;
use crate::quality::FormatAvailability;
use crate::session::AuthReply;
use crate::session::AuthReplyView;
use crate::session::verify_credential;
use crate::streaming::UrlReply;
use crate::streaming::issue_streaming_url;
use crate::streaming::streaming_outcome;
use vstd::prelude::*;

verus! {

/// At most `limit` results, the service-given order preserved verbatim:
/// the returned descriptors are exactly the first `limit` found.
pub fn limit_results(found: Vec<Track>, limit: usize) -> (r: Vec<Track>)
    ensures
        r@.len() <= limit,
        limit >= found@.len() ==> r.deep_view() == found.deep_view(),
        limit < found@.len() ==> r.deep_view() == found.deep_view().take(limit as int),
{
    let mut found = found;
    let ghost all = found.deep_view();
    if found.len() > limit {
        found.truncate(limit);
        proof {
            assert(found.deep_view() =~= all.take(limit as int));
        }
    }
    found
}

/// The stateless service facade: each operation carries its own
/// credential exchange, so calls share nothing and never block each
/// other.
pub struct RusteerService {}

impl RusteerService {
    /// A stateless facade holds nothing.
    pub fn new() -> (s: RusteerService) {
        RusteerService {  }
    }

    /// Verify a credential for a login flow: `Ok(false)` exactly for a
    /// refusal caused by a bad credential, an error for any other
    /// failure class. See [`verify_credential`].
    pub fn verify_arl(&self, reply: AuthReply) -> (r: Result<bool, RusteerError>)
        ensures
            reply@ is Granted ==> r == Ok::<bool, RusteerError>(true),
            reply@ matches AuthReplyView::Refused(m) ==> (if crate::session::is_credential_failure(
                m,
            ) {
                r == Ok::<bool, RusteerError>(false)
            } else {
                r is Err && r->Err_0->DeezerError_0@ == m
            }),
    {
        verify_credential(reply)
    }

    /// Search for tracks: the resolver's results in service order,
    /// limited to `limit` entries. An authentication refusal is the
    /// call's own error.
    pub fn search_tracks(&self, reply: AuthReply, found: Vec<Track>, limit: usize) -> (r: Result<
        Vec<Track>,
        RusteerError,
    >)
        ensures
            reply@ is Granted <==> r is Ok,
            r matches Ok(tracks) ==> tracks@.len() <= limit,
            r matches Ok(tracks) ==> (if limit >= found@.len() {
                tracks.deep_view() == found.deep_view()
            } else {
                tracks.deep_view() == found.deep_view().take(limit as int)
            }),
            r matches Ok(tracks) ==> ((forall|j: int|
                0 <= j < found@.len() ==> (#[trigger] found.deep_view()[j]).well_formed())
                ==> (forall|j: int|
                0 <= j < tracks@.len() ==> (#[trigger] tracks.deep_view()[j]).well_formed())),
            reply@ matches AuthReplyView::Refused(m) ==> r is Err && r->Err_0->DeezerError_0@ == m,
    {
        match reply {
            AuthReply::Granted => {
                let ghost all = found.deep_view();
                let tracks = limit_results(found, limit);
                proof {
                    assert forall|j: int| 0 <= j < tracks@.len() implies (
                    #[trigger] tracks.deep_view()[j]) == all[j] by {
                        if limit < all.len() {
                            assert(tracks.deep_view()[j] == all.take(limit as int)[j]);
                        }
                    }
                }
                Ok(tracks)
            },
            AuthReply::Refused(message) => Err(RusteerError::DeezerError(message)),
        }
    }

    /// Download one track: negotiate the tier, judge the transfer, and
    /// persist under `target_dir`. The first error met is surfaced as
    /// this call's own error, annotated with the track's title.
    pub fn download_track(
        &self,
        reply: AuthReply,
        descriptor: &Track,
        availability: &FormatAvailability,
        transfer: &TransferOutcome,
        target_dir: &str,
        quality: DownloadQuality,
    ) -> (r: Result<DownloadResult, RusteerError>)
        ensures
            reply@ matches AuthReplyView::Refused(m) ==> r is Err && r->Err_0->DeezerError_0@ == m,
            reply@ is Granted ==> ({
                let oc = download_outcome(
                    descriptor@,
                    *availability,
                    transfer@,
                    quality,
                    target_dir@,
                    0,
                );
                &&& (r is Ok <==> oc is Ok)
                &&& (r matches Ok(res) ==> res@ == oc->Ok_0 && res.quality.le(quality))
                &&& (r is Err ==> r->Err_0->DeezerError_0@ == descriptor.title@ + ": "@
                    + error_text_view(oc->Err_0))
            }),
    {
        match reply {
            AuthReply::Refused(message) => Err(RusteerError::DeezerError(message)),
            AuthReply::Granted => {
                match download_one(descriptor, availability, transfer, quality, target_dir, 0) {
                    Ok(res) => Ok(res),
                    Err(e) => Err(
                        RusteerError::DeezerError(e.text_for_track(descriptor.title.as_str())),
                    ),
                }
            },
        }
    }

    /// Download a whole album. A per-item failure becomes a
    /// `(title, message)` entry of the aggregate, never this call's own
    /// error; only an authentication refusal or a failure to enumerate
    /// the album itself aborts the call.
    pub fn download_album(
        &self,
        reply: AuthReply,
        resolution: Result<Vec<BatchItem>, String>,
        target_dir: &str,
        quality: DownloadQuality,
    ) -> (r: Result<BatchDownloadResult, RusteerError>)
        ensures
            reply@ matches AuthReplyView::Refused(m) ==> r is Err && r->Err_0->DeezerError_0@ == m,
            reply@ is Granted ==> (r is Ok <==> resolution is Ok),
            reply@ is Granted ==> (resolution matches Err(m) ==> r is Err
                && r->Err_0->DeezerError_0@ == m@),
            reply@ is Granted ==> (resolution matches Ok(items) ==> r is Ok && r->Ok_0@
                == batch_outcome(items.deep_view(), quality, target_dir@)),
            r matches Ok(b) ==> b.directory@ == target_dir@ && b.successful@.len()
                + b.failed@.len() == resolution->Ok_0@.len(),
    {
        match reply {
            AuthReply::Refused(message) => Err(RusteerError::DeezerError(message)),
            AuthReply::Granted => {
                match resolution {
                    Err(message) => Err(RusteerError::DeezerError(message)),
                    Ok(items) => Ok(crate::batch::run_batch(&items, quality, target_dir)),
                }
            },
        }
    }

    /// Download a whole playlist, under the same aggregation contract as
    /// an album: per-item failures are entries, not this call's error.
    pub fn download_playlist(
        &self,
        reply: AuthReply,
        resolution: Result<Vec<BatchItem>, String>,
        target_dir: &str,
        quality: DownloadQuality,
    ) -> (r: Result<BatchDownloadResult, RusteerError>)
        ensures
            reply@ matches AuthReplyView::Refused(m) ==> r is Err && r->Err_0->DeezerError_0@ == m,
            reply@ is Granted ==> (r is Ok <==> resolution is Ok),
            reply@ is Granted ==> (resolution matches Err(m) ==> r is Err
                && r->Err_0->DeezerError_0@ == m@),
            reply@ is Granted ==> (resolution matches Ok(items) ==> r is Ok && r->Ok_0@
                == batch_outcome(items.deep_view(), quality, target_dir@)),
            r matches Ok(b) ==> b.directory@ == target_dir@ && b.successful@.len()
                + b.failed@.len() == resolution->Ok_0@.len(),
    {
        match reply {
            AuthReply::Refused(message) => Err(RusteerError::DeezerError(message)),
            AuthReply::Granted => {
                match resolution {
                    Err(message) => Err(RusteerError::DeezerError(message)),
                    Ok(items) => Ok(crate::batch::run_batch(&items, quality, target_dir)),
                }
            },
        }
    }

    /// Issue an ephemeral playback URL for one track. The first error
    /// met is surfaced as this call's own error, annotated with the
    /// track's identifier.
    pub fn get_streaming_url(
        &self,
        reply: AuthReply,
        track_id: &str,
        availability: &FormatAvailability,
        url_reply: UrlReply,
        quality: DownloadQuality,
    ) -> (r: Result<StreamingUrl, RusteerError>)
        ensures
            reply@ matches AuthReplyView::Refused(m) ==> r is Err && r->Err_0->DeezerError_0@ == m,
            reply@ is Granted ==> ({
                let oc = streaming_outcome(track_id@, *availability, url_reply@, quality);
                &&& (r is Ok <==> oc is Ok)
                &&& (r matches Ok(u) ==> u@ == oc->Ok_0 && u.quality.le(quality) && u.track_id@
                    == track_id@)
                &&& (r is Err ==> r->Err_0->DeezerError_0@ == track_id@ + ": "@ + error_text_view(
                    oc->Err_0,
                ))
            }),
    {
        match reply {
            AuthReply::Refused(message) => Err(RusteerError::DeezerError(message)),
            AuthReply::Granted => {
                match issue_streaming_url(track_id, availability, url_reply, quality) {
                    Ok(u) => Ok(u),
                    Err(e) => Err(RusteerError::DeezerError(e.text_for_track(track_id))),
                }
            },
        }
    }
}

} // verus!
