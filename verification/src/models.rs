//! The engine's value objects and their mathematical views.
//!
//! Every type that carries strings has a view struct whose fields are
//! `Seq<char>`; contracts speak of those views. The value objects are
//! immutable once constructed and hold no shared mutable state.

use crate::quality::DownloadQuality;
use crate::text::joined;
use vstd::prelude::*;

verus! {

/// Mathematical view of a [`Track`].
#[verifier::ext_equal]
pub struct TrackView {
    pub id: Seq<char>,
    pub title: Seq<char>,
    pub artists: Seq<Seq<char>>,
    pub album: Seq<char>,
    pub cover_url: Option<Seq<char>>,
}

impl TrackView {
    /// A descriptor fit to hand to callers: it names a real track.
    pub open spec fn well_formed(self) -> bool {
        self.id.len() > 0 && self.title.len() > 0
    }
}

/// One resolved track descriptor: identifier, title, the ordered artist
/// names, the album title and an optional cover-image URL. Produced by
/// resolution or search; immutable once produced.
pub struct Track {
    pub id: String,
    pub title: String,
    pub artists: Vec<String>,
    pub album: String,
    pub cover_url: Option<String>,
}

impl View for Track {
    type V = TrackView;

    open spec fn view(&self) -> TrackView {
        TrackView {
            id: self.id@,
            title: self.title@,
            artists: self.artists.deep_view(),
            album: self.album@,
            cover_url: self.cover_url.deep_view(),
        }
    }
}

impl DeepView for Track {
    type V = TrackView;

    open spec fn deep_view(&self) -> TrackView {
        self.view()
    }
}

impl Track {
    /// The artist names joined with the given separator, in order.
    pub fn artists_joined(&self, separator: &str) -> (r: String)
        ensures
            r@ == joined(self@.artists, separator@),
    {
        crate::text::join_all(&self.artists, separator)
    }
}

/// Mathematical view of a [`DownloadResult`].
#[verifier::ext_equal]
pub struct DownloadResultView {
    pub path: Seq<char>,
    pub quality: DownloadQuality,
    pub size: u64,
    pub title: Seq<char>,
    pub artist: Seq<char>,
}

/// One successfully persisted track: where it was written, the tier
/// actually obtained, the non-zero byte size, and display metadata.
pub struct DownloadResult {
    pub path: String,
    pub quality: DownloadQuality,
    pub size: u64,
    pub title: String,
    pub artist: String,
}

impl View for DownloadResult {
    type V = DownloadResultView;

    open spec fn view(&self) -> DownloadResultView {
        DownloadResultView {
            path: self.path@,
            quality: self.quality,
            size: self.size,
            title: self.title@,
            artist: self.artist@,
        }
    }
}

impl DeepView for DownloadResult {
    type V = DownloadResultView;

    open spec fn deep_view(&self) -> DownloadResultView {
        self.view()
    }
}

/// Mathematical view of a [`FailedDownload`].
#[verifier::ext_equal]
pub struct FailedDownloadView {
    pub title: Seq<char>,
    pub error: Seq<char>,
}

/// One batch item that failed: the track's title and the error message,
/// kept so the batch itself can still complete.
pub struct FailedDownload {
    pub title: String,
    pub error: String,
}

impl View for FailedDownload {
    type V = FailedDownloadView;

    open spec fn view(&self) -> FailedDownloadView {
        FailedDownloadView { title: self.title@, error: self.error@ }
    }
}

impl DeepView for FailedDownload {
    type V = FailedDownloadView;

    open spec fn deep_view(&self) -> FailedDownloadView {
        self.view()
    }
}

/// Mathematical view of a [`BatchDownloadResult`].
#[verifier::ext_equal]
pub struct BatchDownloadResultView {
    pub directory: Seq<char>,
    pub successful: Seq<DownloadResultView>,
    pub failed: Seq<FailedDownloadView>,
}

/// The aggregate outcome of one album or playlist download: the target
/// directory, the successes in order, and the per-item failures in order.
pub struct BatchDownloadResult {
    pub directory: String,
    pub successful: Vec<DownloadResult>,
    pub failed: Vec<FailedDownload>,
}

impl View for BatchDownloadResult {
    type V = BatchDownloadResultView;

    open spec fn view(&self) -> BatchDownloadResultView {
        BatchDownloadResultView {
            directory: self.directory@,
            successful: self.successful.deep_view(),
            failed: self.failed.deep_view(),
        }
    }
}

/// Mathematical view of a [`StreamingUrl`].
#[verifier::ext_equal]
pub struct StreamingUrlView {
    pub url: Seq<char>,
    pub track_id: Seq<char>,
    pub quality: DownloadQuality,
    pub format: Seq<char>,
}

/// An ephemeral playback URL for one track: never written to storage and
/// carrying the tier actually obtained and its container format tag.
pub struct StreamingUrl {
    pub url: String,
    pub track_id: String,
    pub quality: DownloadQuality,
    pub format: String,
}

impl View for StreamingUrl {
    type V = StreamingUrlView;

    open spec fn view(&self) -> StreamingUrlView {
        StreamingUrlView {
            url: self.url@,
            track_id: self.track_id@,
            quality: self.quality,
            format: self.format@,
        }
    }
}

} // verus!
