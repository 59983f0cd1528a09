//! Batch execution over a resolved sequence of tracks.
//!
//! The aggregator drives the single-track pipeline over every item of an
//! album or playlist independently: a success is appended to
//! `successful`, a failure becomes a `(title, message)` entry in
//! `failed`, and no per-item failure ever aborts a sibling or the batch
//! itself. The aggregate always accounts for every item and always
//! carries the requested target directory.

use crate::download::TransferOutcome;
use crate::download::TransferOutcomeView;
use crate::download::download_one;
use crate::download::download_outcome;
use crate::errors::error_text_view;
use crate::models::BatchDownloadResult;
use crate::models::BatchDownloadResultView;
use crate::models::DownloadResult;
use crate::models::FailedDownload;
use crate::models::FailedDownloadView;
use crate::models::Track;
use crate::models::TrackView;
use crate::quality::DownloadQuality;
use crate::quality::FormatAvailability;
use vstd::prelude::*;
use vstd::string::StringExecFns;

verus! {

/// One item of a batch: the resolved descriptor together with what the
/// outside collaborators reported for it.
pub struct BatchItem {
    pub descriptor: Track,
    pub availability: FormatAvailability,
    pub transfer: TransferOutcome,
}

/// Mathematical view of a [`BatchItem`].
#[verifier::ext_equal]
pub struct BatchItemView {
    pub descriptor: TrackView,
    pub availability: FormatAvailability,
    pub transfer: TransferOutcomeView,
}

impl View for BatchItem {
    type V = BatchItemView;

    open spec fn view(&self) -> BatchItemView {
        BatchItemView {
            descriptor: self.descriptor@,
            availability: self.availability,
            transfer: self.transfer@,
        }
    }
}

impl DeepView for BatchItem {
    type V = BatchItemView;

    open spec fn deep_view(&self) -> BatchItemView {
        self.view()
    }
}

/// The one aggregate a batch can have: each item's outcome, in order,
/// appended to `successful` or turned into a `(title, message)` entry of
/// `failed`; the directory is always the requested one.
pub open spec fn batch_outcome(
    items: Seq<BatchItemView>,
    requested: DownloadQuality,
    dir: Seq<char>,
) -> BatchDownloadResultView
    decreases items.len(),
{
    if items.len() == 0 {
        BatchDownloadResultView { directory: dir, successful: Seq::empty(), failed: Seq::empty() }
    } else {
        let prev = batch_outcome(items.drop_last(), requested, dir);
        let last = items.last();
        match download_outcome(
            last.descriptor,
            last.availability,
            last.transfer,
            requested,
            dir,
            (items.len() - 1) as nat,
        ) {
            Ok(res) => BatchDownloadResultView {
                directory: dir,
                successful: prev.successful.push(res),
                failed: prev.failed,
            },
            Err(e) => BatchDownloadResultView {
                directory: dir,
                successful: prev.successful,
                failed: prev.failed.push(
                    FailedDownloadView {
                        title: last.descriptor.title,
                        error: error_text_view(e),
                    },
                ),
            },
        }
    }
}

/// Every item of a batch is accounted for, exactly once: the successes
/// and the failures together number the resolved items.
pub proof fn lemma_batch_accounts_for_every_item(
    items: Seq<BatchItemView>,
    requested: DownloadQuality,
    dir: Seq<char>,
)
    ensures
        batch_outcome(items, requested, dir).successful.len() + batch_outcome(
            items,
            requested,
            dir,
        ).failed.len() == items.len(),
    decreases items.len(),
{
    if items.len() > 0 {
        lemma_batch_accounts_for_every_item(items.drop_last(), requested, dir);
    }
}

/// The aggregate's directory is the requested target directory, whatever
/// the per-item outcomes were.
pub proof fn lemma_batch_directory(
    items: Seq<BatchItemView>,
    requested: DownloadQuality,
    dir: Seq<char>,
)
    ensures
        batch_outcome(items, requested, dir).directory == dir,
{
}

/// Every success in a batch carries a tier at or below the requested
/// one: negotiation never reports a higher tier than was asked for.
pub proof fn lemma_batch_quality_ceiling(
    items: Seq<BatchItemView>,
    requested: DownloadQuality,
    dir: Seq<char>,
)
    ensures
        forall|j: int|
            0 <= j < batch_outcome(items, requested, dir).successful.len() ==> (
            #[trigger] batch_outcome(items, requested, dir).successful[j]).quality.le(requested),
    decreases items.len(),
{
    if items.len() > 0 {
        lemma_batch_quality_ceiling(items.drop_last(), requested, dir);
        crate::quality::lemma_selected_tier_not_above_requested(items.last().availability, requested);
    }
}

/// `p` is an output path of this batch's naming scheme whose position
/// tag lies below `bound`.
pub open spec fn path_tagged_below(p: Seq<char>, dir: Seq<char>, bound: nat) -> bool {
    exists|t: Seq<char>, idx: nat, q: DownloadQuality|
        idx < bound && p == #[trigger] crate::download::output_path(
            dir,
            t,
            idx,
            crate::quality::extension_view(q),
        )
}

/// No two successes of one batch share an output path: the position
/// suffix in the naming scheme keeps a batch from silently overwriting
/// one of its own files, also when titles repeat.
pub proof fn lemma_batch_paths_distinct(
    items: Seq<BatchItemView>,
    requested: DownloadQuality,
    dir: Seq<char>,
)
    ensures
        forall|j: int|
            0 <= j < batch_outcome(items, requested, dir).successful.len() ==> path_tagged_below(
                (#[trigger] batch_outcome(items, requested, dir).successful[j]).path,
                dir,
                items.len(),
            ),
        forall|a: int, b: int|
            #![trigger batch_outcome(items, requested, dir).successful[a], batch_outcome(items, requested, dir).successful[b]]
            0 <= a < b < batch_outcome(items, requested, dir).successful.len() ==> batch_outcome(
                items,
                requested,
                dir,
            ).successful[a].path != batch_outcome(items, requested, dir).successful[b].path,
    decreases items.len(),
{
    if items.len() > 0 {
        lemma_batch_paths_distinct(items.drop_last(), requested, dir);
        let prev = batch_outcome(items.drop_last(), requested, dir);
        let cur = batch_outcome(items, requested, dir);
        let last = items.last();
        let pos = (items.len() - 1) as nat;
        let oc = download_outcome(
            last.descriptor,
            last.availability,
            last.transfer,
            requested,
            dir,
            pos,
        );
        assert forall|j: int| 0 <= j < prev.successful.len() implies path_tagged_below(
            (#[trigger] prev.successful[j]).path,
            dir,
            items.len(),
        ) by {
            let (t, idx, q) = choose|t: Seq<char>, idx: nat, q: DownloadQuality|
                idx < items.drop_last().len() && prev.successful[j].path
                    == #[trigger] crate::download::output_path(
                    dir,
                    t,
                    idx,
                    crate::quality::extension_view(q),
                );
            assert(idx < items.len() && prev.successful[j].path
                == crate::download::output_path(dir, t, idx, crate::quality::extension_view(q)));
        }
        if oc is Ok {
            let tier = crate::quality::best_tier(last.availability, requested)->Some_0;
            let m = oc->Ok_0;
            assert(m.path == crate::download::output_path(
                dir,
                last.descriptor.title,
                pos,
                crate::quality::extension_view(tier),
            ));
            assert(path_tagged_below(m.path, dir, items.len()));
            assert forall|a: int, b: int|
                #![trigger cur.successful[a], cur.successful[b]]
                0 <= a < b < cur.successful.len() implies cur.successful[a].path
                != cur.successful[b].path by {
                if b == prev.successful.len() as int {
                    let (t, idx, q) = choose|t: Seq<char>, idx: nat, q: DownloadQuality|
                        idx < items.drop_last().len() && prev.successful[a].path
                            == #[trigger] crate::download::output_path(
                            dir,
                            t,
                            idx,
                            crate::quality::extension_view(q),
                        );
                    crate::download::lemma_distinct_positions_never_collide(
                        dir,
                        t,
                        idx,
                        q,
                        last.descriptor.title,
                        pos,
                        tier,
                    );
                    assert(cur.successful[a] == prev.successful[a]);
                    assert(cur.successful[b] == m);
                }
            }
        }
    }
}

/// Run the single-track pipeline over every item independently and fold
/// the outcomes into one aggregate. A failed item becomes a
/// `(title, message)` entry; it is never surfaced as the batch's own
/// error and never aborts a sibling.
pub fn run_batch(items: &Vec<BatchItem>, requested: DownloadQuality, target_dir: &str) -> (r:
    BatchDownloadResult)
    ensures
        r@ == batch_outcome(items.deep_view(), requested, target_dir@),
        r.directory@ == target_dir@,
        r.successful@.len() + r.failed@.len() == items@.len(),
        forall|a: int, b: int|
            #![trigger r@.successful[a], r@.successful[b]]
            0 <= a < b < r@.successful.len() ==> r@.successful[a].path != r@.successful[b].path,
{
    let ghost items_view = items.deep_view();
    let mut successful: Vec<DownloadResult> = Vec::new();
    let mut failed: Vec<FailedDownload> = Vec::new();
    let mut i: usize = 0;
    while i < items.len()
        invariant
            i <= items@.len(),
            items.deep_view() == items_view,
            items_view.len() == items@.len(),
            batch_outcome(items_view.take(i as int), requested, target_dir@)
                == (BatchDownloadResultView {
                directory: target_dir@,
                successful: successful.deep_view(),
                failed: failed.deep_view(),
            }),
        decreases items@.len() - i,
    {
        let item = &items[i];
        let ghost old_successful = successful.deep_view();
        let ghost old_failed = failed.deep_view();
        match download_one(
            &item.descriptor,
            &item.availability,
            &item.transfer,
            requested,
            target_dir,
            i as u64,
        ) {
            Ok(res) => {
                successful.push(res);
            },
            Err(e) => {
                let message = e.text();
                failed.push(FailedDownload { title: item.descriptor.title.clone(), error: message });
            },
        }
        proof {
            let oc = download_outcome(
                item@.descriptor,
                item@.availability,
                item@.transfer,
                requested,
                target_dir@,
                i as nat,
            );
            assert(items_view.take(i + 1).drop_last() =~= items_view.take(i as int));
            assert(items_view.take(i + 1).last() == items_view[i as int]);
            assert(items_view[i as int] == item@);
            if oc is Ok {
                assert(successful.deep_view() =~= old_successful.push(oc->Ok_0));
                assert(failed.deep_view() =~= old_failed);
            } else {
                assert(successful.deep_view() =~= old_successful);
                assert(failed.deep_view() =~= old_failed.push(
                    FailedDownloadView {
                        title: item@.descriptor.title,
                        error: error_text_view(oc->Err_0),
                    },
                ));
            }
            assert(batch_outcome(items_view.take(i + 1), requested, target_dir@)
                =~= (BatchDownloadResultView {
                directory: target_dir@,
                successful: successful.deep_view(),
                failed: failed.deep_view(),
            }));
        }
        i += 1;
    }
    proof {
        assert(items_view.take(items@.len() as int) =~= items_view);
        lemma_batch_accounts_for_every_item(items_view, requested, target_dir@);
        lemma_batch_paths_distinct(items_view, requested, target_dir@);
    }
    BatchDownloadResult { directory: target_dir.to_owned(), successful, failed }
}

} // verus!
