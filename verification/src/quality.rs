//! Quality-tier negotiation.
//!
//! Tiers form a fixed fidelity order, highest first: `Flac`, `Mp3_320`,
//! `Mp3_128`. A request for a tier falls back to the next lower tier when
//! the track does not offer it, never to a higher one, and fails only when
//! no tier at or below the request is offered.

use vstd::prelude::*;

verus! {

/// An audio fidelity tier, ordered highest to lowest:
/// `Flac` > `Mp3_320` > `Mp3_128`.
#[derive(Clone, Copy, Debug, PartialEq, Eq, Structural)]
pub enum DownloadQuality {
    Flac,
    Mp3_320,
    Mp3_128,
}

impl DownloadQuality {
    /// Numeric fidelity rank: a larger rank is a higher-fidelity tier.
    pub open spec fn fidelity(self) -> int {
        match self {
            DownloadQuality::Flac => 2,
            DownloadQuality::Mp3_320 => 1,
            DownloadQuality::Mp3_128 => 0,
        }
    }

    /// `self` is at or below `other` in the fidelity order.
    pub open spec fn le(self, other: DownloadQuality) -> bool {
        self.fidelity() <= other.fidelity()
    }
}

/// Which concrete formats the service offers for one specific track.
/// Availability varies per track, which is why negotiation is per item.
#[derive(Clone, Copy, Debug, PartialEq, Eq, Structural)]
pub struct FormatAvailability {
    pub flac: bool,
    pub mp3_320: bool,
    pub mp3_128: bool,
}

impl FormatAvailability {
    /// The track offers the given tier.
    pub open spec fn offers(self, q: DownloadQuality) -> bool {
        match q {
            DownloadQuality::Flac => self.flac,
            DownloadQuality::Mp3_320 => self.mp3_320,
            DownloadQuality::Mp3_128 => self.mp3_128,
        }
    }
}

/// The tier the selector settles on: the highest offered tier at or below
/// the requested one, or nothing when no such tier is offered.
pub open spec fn best_tier(avail: FormatAvailability, requested: DownloadQuality) -> Option<
    DownloadQuality,
> {
    if avail.flac && DownloadQuality::Flac.le(requested) {
        Some(DownloadQuality::Flac)
    } else if avail.mp3_320 && DownloadQuality::Mp3_320.le(requested) {
        Some(DownloadQuality::Mp3_320)
    } else if avail.mp3_128 {
        Some(DownloadQuality::Mp3_128)
    } else {
        None
    }
}

/// Negotiate a concrete tier for one track: try `requested`, then fall
/// back tier by tier in the fixed order `Flac` > `Mp3_320` > `Mp3_128`
/// until an offered tier is found, or fail when the order is exhausted.
pub fn resolve_quality(avail: &FormatAvailability, requested: DownloadQuality) -> (r: Option<
    DownloadQuality,
>)
    ensures
        r == best_tier(*avail, requested),
{
    match requested {
        DownloadQuality::Flac => {
            if avail.flac {
                Some(DownloadQuality::Flac)
            } else if avail.mp3_320 {
                Some(DownloadQuality::Mp3_320)
            } else if avail.mp3_128 {
                Some(DownloadQuality::Mp3_128)
            } else {
                None
            }
        },
        DownloadQuality::Mp3_320 => {
            if avail.mp3_320 {
                Some(DownloadQuality::Mp3_320)
            } else if avail.mp3_128 {
                Some(DownloadQuality::Mp3_128)
            } else {
                None
            }
        },
        DownloadQuality::Mp3_128 => {
            if avail.mp3_128 {
                Some(DownloadQuality::Mp3_128)
            } else {
                None
            }
        },
    }
}

/// The tier the selector settles on never exceeds the requested tier:
/// a caller is never told "succeeded at the requested tier" when the
/// obtained tier is lower, and never receives a higher tier than asked.
pub proof fn lemma_selected_tier_not_above_requested(
    avail: FormatAvailability,
    requested: DownloadQuality,
)
    ensures
        best_tier(avail, requested) matches Some(q) ==> q.le(requested),
{
}

/// The selector settles on an offered tier, and fails exactly when no
/// tier at or below the requested one is offered: success is owed in
/// every other case.
pub proof fn lemma_selector_success(avail: FormatAvailability, requested: DownloadQuality)
    ensures
        best_tier(avail, requested) matches Some(q) ==> avail.offers(q),
        best_tier(avail, requested) is None <==> (forall|q: DownloadQuality|
            #[trigger] avail.offers(q) ==> !q.le(requested)),
{
    if best_tier(avail, requested) is None {
        assert(!avail.offers(DownloadQuality::Mp3_128));
    } else {
        let q = best_tier(avail, requested)->Some_0;
        assert(avail.offers(q) && q.le(requested));
    }
}

/// Requesting the top tier on a track that lacks it but offers the next
/// lower one falls back to that tier and succeeds rather than failing.
pub proof fn lemma_flac_falls_back_to_mp3_320(avail: FormatAvailability)
    requires
        !avail.flac,
        avail.mp3_320,
    ensures
        best_tier(avail, DownloadQuality::Flac) == Some(DownloadQuality::Mp3_320),
{
}

/// The container format tag reported for a tier.
pub open spec fn format_tag_view(q: DownloadQuality) -> Seq<char> {
    match q {
        DownloadQuality::Flac => "FLAC"@,
        DownloadQuality::Mp3_320 => "MP3_320"@,
        DownloadQuality::Mp3_128 => "MP3_128"@,
    }
}

/// The output filename extension used for a tier.
pub open spec fn extension_view(q: DownloadQuality) -> Seq<char> {
    match q {
        DownloadQuality::Flac => "flac"@,
        DownloadQuality::Mp3_320 => "mp3"@,
        DownloadQuality::Mp3_128 => "mp3"@,
    }
}

/// The container format tag reported for a tier.
pub fn format_tag(q: DownloadQuality) -> (r: &'static str)
    ensures
        r@ == format_tag_view(q),
{
    match q {
        DownloadQuality::Flac => "FLAC",
        DownloadQuality::Mp3_320 => "MP3_320",
        DownloadQuality::Mp3_128 => "MP3_128",
    }
}

/// The output filename extension used for a tier.
pub fn extension(q: DownloadQuality) -> (r: &'static str)
    ensures
        r@ == extension_view(q),
{
    match q {
        DownloadQuality::Flac => "flac",
        DownloadQuality::Mp3_320 => "mp3",
        DownloadQuality::Mp3_128 => "mp3",
    }
}

} // verus!
