//! Single-track download orchestration.
//!
//! One track's pipeline: negotiate a concrete tier, have the outside
//! codec fetch and decode the content, write it under the target
//! directory, check that a non-zero size was persisted, and report the
//! tier actually obtained. The fetch-decode-write work happens outside
//! this crate; the host layer hands its outcome in as a
//! [`TransferOutcome`], and every decision about that outcome is
//! verified here. A failure at any step is one tagged error for this
//! track alone.

use crate::errors::DownloadError;
use crate::errors::DownloadErrorView;
use crate::models::DownloadResult;
use crate::models::DownloadResultView;
use crate::models::Track;
use crate::models::TrackView;
use crate::quality::DownloadQuality;
use crate::quality::FormatAvailability;
use crate::quality::best_tier;
use crate::quality::extension;
use crate::quality::extension_view;
use crate::quality::resolve_quality;
use crate::session::Session;
use crate::text::decimal_string;
use crate::text::decimal_view;
use crate::text::joined;
use vstd::prelude::*;
use vstd::string::StringExecFns;

verus! {

/// What the outside fetch-decode-write collaborators did for one track:
/// the byte size the writer reports having persisted, or the failure the
/// first collaborator to give up reported.
pub enum TransferOutcome {
    Delivered(u64),
    NotFound(String),
    NetworkFailure(String),
    DecodeFailure(String),
    WriteFailure(String),
}

/// Mathematical view of a [`TransferOutcome`].
pub enum TransferOutcomeView {
    Delivered(u64),
    NotFound(Seq<char>),
    NetworkFailure(Seq<char>),
    DecodeFailure(Seq<char>),
    WriteFailure(Seq<char>),
}

impl View for TransferOutcome {
    type V = TransferOutcomeView;

    open spec fn view(&self) -> TransferOutcomeView {
        match self {
            TransferOutcome::Delivered(n) => TransferOutcomeView::Delivered(*n),
            TransferOutcome::NotFound(m) => TransferOutcomeView::NotFound(m@),
            TransferOutcome::NetworkFailure(m) => TransferOutcomeView::NetworkFailure(m@),
            TransferOutcome::DecodeFailure(m) => TransferOutcomeView::DecodeFailure(m@),
            TransferOutcome::WriteFailure(m) => TransferOutcomeView::WriteFailure(m@),
        }
    }
}

/// The output filename for a track: its title, an underscore, the
/// track's position rendered in decimal, a dot and the extension. The
/// position suffix keeps two tracks with the same title in one batch
/// from silently overwriting each other.
pub open spec fn file_name(title: Seq<char>, index: nat, ext: Seq<char>) -> Seq<char> {
    title + "_"@ + decimal_view(index) + "."@ + ext
}

/// The full output path: the target directory, a separator, the filename.
pub open spec fn output_path(dir: Seq<char>, title: Seq<char>, index: nat, ext: Seq<char>) -> Seq<
    char,
> {
    dir + "/"@ + file_name(title, index, ext)
}

/// Build the collision-safe output path for a track.
pub fn output_path_for(dir: &str, title: &str, index: u64, ext: &str) -> (r: String)
    ensures
        r@ == output_path(dir@, title@, index as nat, ext@),
{
    let mut s = dir.to_owned();
    s.append("/");
    s.append(title);
    s.append("_");
    let position = decimal_string(index);
    s.append(position.as_str());
    s.append(".");
    s.append(ext);
    s
}

/// Two distinct positions in one batch never collide on an output path,
/// whatever the titles and tiers: the position suffix makes the naming
/// scheme deterministic and safe against silent overwriting, also when
/// a batch holds tracks with duplicate titles.
pub proof fn lemma_distinct_positions_never_collide(
    dir: Seq<char>,
    t1: Seq<char>,
    i1: nat,
    q1: DownloadQuality,
    t2: Seq<char>,
    i2: nat,
    q2: DownloadQuality,
)
    requires
        i1 != i2,
    ensures
        output_path(dir, t1, i1, extension_view(q1)) != output_path(
            dir,
            t2,
            i2,
            extension_view(q2),
        ),
{
    reveal_strlit("flac");
    reveal_strlit("mp3");
    reveal_strlit("/");
    reveal_strlit("_");
    reveal_strlit(".");
    let e1 = extension_view(q1);
    let e2 = extension_view(q2);
    let f1 = file_name(t1, i1, e1);
    let f2 = file_name(t2, i2, e2);
    let d1 = crate::text::decimal_view(i1);
    let d2 = crate::text::decimal_view(i2);
    crate::text::lemma_decimal_view_digits(i1);
    crate::text::lemma_decimal_view_digits(i2);
    if output_path(dir, t1, i1, e1) == output_path(dir, t2, i2, e2) {
        let s = output_path(dir, t1, i1, e1);
        assert(s.len() == dir.len() + 1 + f1.len());
        assert(s.len() == dir.len() + 1 + f2.len());
        assert(f1 =~= f2) by {
            assert forall|k: int| 0 <= k < f1.len() implies f1[k] == f2[k] by {
                assert(s[dir.len() + 1 + k] == f1[k]);
                assert(s[dir.len() + 1 + k] == f2[k]);
            }
        }
        if e1.len() == e2.len() {
            let b1 = t1 + "_"@ + d1;
            let b2 = t2 + "_"@ + d2;
            assert(b1.len() == b2.len());
            assert(b1 =~= b2) by {
                assert forall|k: int| 0 <= k < b1.len() implies b1[k] == b2[k] by {
                    assert(f1[k] == b1[k]);
                    assert(f2[k] == b2[k]);
                }
            }
            crate::text::lemma_underscore_tagged_unique(t1, d1, t2, d2);
            crate::text::lemma_decimal_view_injective(i1, i2);
        } else {
            // One extension is four characters, the other three, so the
            // final character of an equal filename would be both.
            assert(f1[f1.len() - 1] == e1[e1.len() - 1]);
            assert(f2[f2.len() - 1] == e2[e2.len() - 1]);
        }
    }
}

/// The one result a track's download pipeline can have, as a function of
/// the negotiated tier and the transfer outcome: a result carrying the
/// tier actually obtained and the non-zero persisted size, or the first
/// error met, tagged with the step it came from.
pub open spec fn download_outcome(
    descriptor: TrackView,
    avail: FormatAvailability,
    transfer: TransferOutcomeView,
    requested: DownloadQuality,
    dir: Seq<char>,
    index: nat,
) -> Result<DownloadResultView, DownloadErrorView> {
    match best_tier(avail, requested) {
        None => Err(DownloadErrorView::QualityUnavailable),
        Some(q) => match transfer {
            TransferOutcomeView::Delivered(n) => if n > 0 {
                Ok(
                    DownloadResultView {
                        path: output_path(dir, descriptor.title, index, extension_view(q)),
                        quality: q,
                        size: n,
                        title: descriptor.title,
                        artist: joined(descriptor.artists, ", "@),
                    },
                )
            } else {
                Err(DownloadErrorView::Io("no bytes were written"@))
            },
            TransferOutcomeView::NotFound(m) => Err(DownloadErrorView::NotFound(m)),
            TransferOutcomeView::NetworkFailure(m) => Err(DownloadErrorView::Network(m)),
            TransferOutcomeView::DecodeFailure(m) => Err(DownloadErrorView::Decode(m)),
            TransferOutcomeView::WriteFailure(m) => Err(DownloadErrorView::Io(m)),
        },
    }
}

/// Execute the decisions of one track's download: negotiate the tier
/// with downward fallback, judge the transfer outcome, and construct the
/// result or the single tagged error for this track.
///
/// `index` is the track's position within its batch; a lone download
/// stands at position `0`.
pub fn download_one(
    descriptor: &Track,
    availability: &FormatAvailability,
    transfer: &TransferOutcome,
    requested: DownloadQuality,
    target_dir: &str,
    index: u64,
) -> (r: Result<DownloadResult, DownloadError>)
    ensures
        r is Ok <==> download_outcome(
            descriptor@,
            *availability,
            transfer@,
            requested,
            target_dir@,
            index as nat,
        ) is Ok,
        r matches Ok(res) ==> res@ == download_outcome(
            descriptor@,
            *availability,
            transfer@,
            requested,
            target_dir@,
            index as nat,
        )->Ok_0,
        r matches Err(e) ==> e@ == download_outcome(
            descriptor@,
            *availability,
            transfer@,
            requested,
            target_dir@,
            index as nat,
        )->Err_0,
        r matches Ok(res) ==> res.quality.le(requested) && availability.offers(res.quality)
            && res.size > 0,
{
    let tier = match resolve_quality(availability, requested) {
        None => {
            return Err(DownloadError::QualityUnavailable);
        },
        Some(t) => t,
    };
    match transfer {
        TransferOutcome::Delivered(n) => {
            if *n == 0 {
                Err(DownloadError::Io("no bytes were written".to_owned()))
            } else {
                let path = output_path_for(
                    target_dir,
                    descriptor.title.as_str(),
                    index,
                    extension(tier),
                );
                let artist = descriptor.artists_joined(", ");
                let res = DownloadResult {
                    path,
                    quality: tier,
                    size: *n,
                    title: descriptor.title.clone(),
                    artist,
                };
                proof {
                    assert(res@ =~= download_outcome(
                        descriptor@,
                        *availability,
                        transfer@,
                        requested,
                        target_dir@,
                        index as nat,
                    )->Ok_0);
                }
                Ok(res)
            }
        },
        TransferOutcome::NotFound(m) => Err(DownloadError::NotFound(m.clone())),
        TransferOutcome::NetworkFailure(m) => Err(DownloadError::Network(m.clone())),
        TransferOutcome::DecodeFailure(m) => Err(DownloadError::Decode(m.clone())),
        TransferOutcome::WriteFailure(m) => Err(DownloadError::Io(m.clone())),
    }
}

/// Download one track under a bound session, at the session's current
/// quality preference: after `set_quality(tier)` on the session, every
/// result obtained through it carries a tier at or below `tier`, never
/// a higher one.
pub fn download_with_session(
    session: &Session,
    descriptor: &Track,
    availability: &FormatAvailability,
    transfer: &TransferOutcome,
    target_dir: &str,
    index: u64,
) -> (r: Result<DownloadResult, DownloadError>)
    ensures
        r is Ok <==> download_outcome(
            descriptor@,
            *availability,
            transfer@,
            session.quality,
            target_dir@,
            index as nat,
        ) is Ok,
        r matches Ok(res) ==> res@ == download_outcome(
            descriptor@,
            *availability,
            transfer@,
            session.quality,
            target_dir@,
            index as nat,
        )->Ok_0,
        r matches Err(e) ==> e@ == download_outcome(
            descriptor@,
            *availability,
            transfer@,
            session.quality,
            target_dir@,
            index as nat,
        )->Err_0,
        r matches Ok(res) ==> res.quality.le(session.quality),
{
    download_one(descriptor, availability, transfer, session.quality, target_dir, index)
}

} // verus!
