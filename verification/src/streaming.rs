//! Ephemeral playback URL issuance.
//!
//! Quality is negotiated exactly as for a download, but the content
//! service is asked for a short-lived URL instead of bytes; nothing
//! touches the filesystem. Repeated calls with the same arguments under
//! one valid session resolve the same track and tier; only the literal
//! URL token, which the outside service mints afresh, may differ.

use crate::errors::DownloadError;
use crate::errors::DownloadErrorView;
use crate::models::StreamingUrl;
use crate::models::StreamingUrlView;
use crate::quality::DownloadQuality;
use crate::quality::FormatAvailability;
use crate::quality::best_tier;
use crate::quality::format_tag;
use crate::quality::format_tag_view;
use crate::quality::resolve_quality;
use vstd::prelude::*;

verus! {

/// The content service's reply to a URL request, as the host layer hands
/// it in: a minted short-lived URL, or the failure it reported.
pub enum UrlReply {
    Issued(String),
    NotFound(String),
    NetworkFailure(String),
}

/// Mathematical view of a [`UrlReply`].
pub enum UrlReplyView {
    Issued(Seq<char>),
    NotFound(Seq<char>),
    NetworkFailure(Seq<char>),
}

impl View for UrlReply {
    type V = UrlReplyView;

    open spec fn view(&self) -> UrlReplyView {
        match self {
            UrlReply::Issued(u) => UrlReplyView::Issued(u@),
            UrlReply::NotFound(m) => UrlReplyView::NotFound(m@),
            UrlReply::NetworkFailure(m) => UrlReplyView::NetworkFailure(m@),
        }
    }
}

/// The one result a URL request can have: the minted URL carrying the
/// track's identifier, the tier actually obtained and its container
/// format tag, or the first error met.
pub open spec fn streaming_outcome(
    track_id: Seq<char>,
    avail: FormatAvailability,
    reply: UrlReplyView,
    requested: DownloadQuality,
) -> Result<StreamingUrlView, DownloadErrorView> {
    match best_tier(avail, requested) {
        None => Err(DownloadErrorView::QualityUnavailable),
        Some(q) => match reply {
            UrlReplyView::Issued(u) => Ok(
                StreamingUrlView { url: u, track_id, quality: q, format: format_tag_view(q) },
            ),
            UrlReplyView::NotFound(m) => Err(DownloadErrorView::NotFound(m)),
            UrlReplyView::NetworkFailure(m) => Err(DownloadErrorView::Network(m)),
        },
    }
}

/// Execute the decisions of one URL request: negotiate the tier with
/// downward fallback and judge the service's reply.
pub fn issue_streaming_url(
    track_id: &str,
    availability: &FormatAvailability,
    reply: UrlReply,
    requested: DownloadQuality,
) -> (r: Result<StreamingUrl, DownloadError>)
    ensures
        r is Ok <==> streaming_outcome(track_id@, *availability, reply@, requested) is Ok,
        r matches Ok(u) ==> u@ == streaming_outcome(
            track_id@,
            *availability,
            reply@,
            requested,
        )->Ok_0,
        r matches Err(e) ==> e@ == streaming_outcome(
            track_id@,
            *availability,
            reply@,
            requested,
        )->Err_0,
        r matches Ok(u) ==> u.quality.le(requested) && u.track_id@ == track_id@,
{
    let tier = match resolve_quality(availability, requested) {
        None => {
            return Err(DownloadError::QualityUnavailable);
        },
        Some(t) => t,
    };
    match reply {
        UrlReply::Issued(url) => Ok(
            StreamingUrl {
                url,
                track_id: track_id.to_owned(),
                quality: tier,
                format: format_tag(tier).to_owned(),
            },
        ),
        UrlReply::NotFound(m) => Err(DownloadError::NotFound(m)),
        UrlReply::NetworkFailure(m) => Err(DownloadError::Network(m)),
    }
}

/// Issuance is idempotent up to the minted token: two requests for the
/// same track, availability and tier that both come back issued resolve
/// the same track identifier, the same obtained tier and the same
/// container format; only the URL strings may differ.
pub proof fn lemma_streaming_idempotent(
    track_id: Seq<char>,
    avail: FormatAvailability,
    requested: DownloadQuality,
    first: UrlReplyView,
    second: UrlReplyView,
)
    requires
        first is Issued,
        second is Issued,
    ensures
        streaming_outcome(track_id, avail, first, requested) is Ok <==> streaming_outcome(
            track_id,
            avail,
            second,
            requested,
        ) is Ok,
        streaming_outcome(track_id, avail, first, requested) is Ok ==> ({
            let a = streaming_outcome(track_id, avail, first, requested)->Ok_0;
            let b = streaming_outcome(track_id, avail, second, requested)->Ok_0;
            a.track_id == b.track_id && a.quality == b.quality && a.format == b.format
        }),
{
}

} // verus!
