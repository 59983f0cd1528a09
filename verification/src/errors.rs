//! The error taxonomy and its rendering to user-legible messages.

use vstd::prelude::*;
use vstd::string::StringExecFns;

verus! {

/// Why authentication failed. Invalid and expired credentials form the
/// distinguished "bad credentials" class that `verify` coerces to a
/// boolean; every other class is surfaced as an error.
#[derive(Debug)]
pub enum AuthenticationError {
    InvalidCredentials,
    ExpiredCredentials,
    Transport(String),
}

/// Mathematical view of a [`DownloadError`].
pub enum DownloadErrorView {
    QualityUnavailable,
    NotFound(Seq<char>),
    Network(Seq<char>),
    Decode(Seq<char>),
    Io(Seq<char>),
}

/// Why one track's download failed. A failure is tagged with the step it
/// came from and is always associated with that track alone.
#[derive(Debug)]
pub enum DownloadError {
    /// No quality tier at or below the requested one is offered.
    QualityUnavailable,
    /// The service does not know the identifier.
    NotFound(String),
    /// The transfer collaborator reported a network failure.
    Network(String),
    /// The codec collaborator could not decode the content.
    Decode(String),
    /// The local write failed or persisted no bytes.
    Io(String),
}

impl View for DownloadError {
    type V = DownloadErrorView;

    open spec fn view(&self) -> DownloadErrorView {
        match self {
            DownloadError::QualityUnavailable => DownloadErrorView::QualityUnavailable,
            DownloadError::NotFound(m) => DownloadErrorView::NotFound(m@),
            DownloadError::Network(m) => DownloadErrorView::Network(m@),
            DownloadError::Decode(m) => DownloadErrorView::Decode(m@),
            DownloadError::Io(m) => DownloadErrorView::Io(m@),
        }
    }
}

/// The message a [`DownloadError`] renders to.
pub open spec fn error_text_view(e: DownloadErrorView) -> Seq<char> {
    match e {
        DownloadErrorView::QualityUnavailable => "no requested audio quality is available"@,
        DownloadErrorView::NotFound(m) => "not found: "@ + m,
        DownloadErrorView::Network(m) => "network error: "@ + m,
        DownloadErrorView::Decode(m) => "decode error: "@ + m,
        DownloadErrorView::Io(m) => "i/o error: "@ + m,
    }
}

impl DownloadError {
    /// Render the error as a message.
    pub fn text(&self) -> (r: String)
        ensures
            r@ == error_text_view(self@),
    {
        match self {
            DownloadError::QualityUnavailable => "no requested audio quality is available".to_owned(),
            DownloadError::NotFound(m) => {
                let mut s = "not found: ".to_owned();
                s.append(m.as_str());
                s
            },
            DownloadError::Network(m) => {
                let mut s = "network error: ".to_owned();
                s.append(m.as_str());
                s
            },
            DownloadError::Decode(m) => {
                let mut s = "decode error: ".to_owned();
                s.append(m.as_str());
                s
            },
            DownloadError::Io(m) => {
                let mut s = "i/o error: ".to_owned();
                s.append(m.as_str());
                s
            },
        }
    }

    /// Render the error as a message annotated with the track's title,
    /// for the single-item calls that surface it directly.
    pub fn text_for_track(&self, title: &str) -> (r: String)
        ensures
            r@ == title@ + ": "@ + error_text_view(self@),
    {
        let mut s = title.to_owned();
        s.append(": ");
        let tail = self.text();
        s.append(tail.as_str());
        s
    }
}

/// Mathematical view of a [`RusteerError`].
pub enum RusteerErrorView {
    DeezerError(Seq<char>),
}

/// The single error surface the host-facing calls report: one message.
#[derive(Debug)]
pub enum RusteerError {
    DeezerError(String),
}

impl View for RusteerError {
    type V = RusteerErrorView;

    open spec fn view(&self) -> RusteerErrorView {
        match self {
            RusteerError::DeezerError(m) => RusteerErrorView::DeezerError(m@),
        }
    }
}

} // verus!
