//! The poll-and-serve core: one step of the repeating poll cycle, and the
//! published snapshot the HTTP surface serves.
//!
//! The surrounding process owns the timer, the device request and the HTTP
//! stack. On every tick it hands the fetch outcome to [`poll_step`], which
//! drives update, render and publish; readers are given the snapshot text
//! whole, so a reader only ever sees the complete output of one finished
//! render, never a mixture of two.

use vstd::prelude::*;

use crate::homewizard::HomeWizardError;
use crate::homewizard::Reading;
use crate::homewizard::ReadingView;
use crate::metrics::Metrics;
use crate::metrics::MetricsError;
use crate::metrics::spec_apply;
use crate::metrics::spec_render;

verus! {

/// The published snapshot: the most recently rendered exposition text, as
/// the HTTP surface serves it. Replaced whole on publish — the process
/// around the library keeps one of these behind its single-writer,
/// many-reader primitive.
#[derive(Debug)]
pub struct Snapshot {
    text: String,
}

impl View for Snapshot {
    type V = Seq<char>;

    closed spec fn view(&self) -> Seq<char> {
        self.text@
    }
}

/// Holds of every text the snapshot slot can carry: the empty text from
/// before the first publish, or the complete render of some one applied
/// reading — never parts of two renders.
pub open spec fn is_published_text(t: Seq<char>) -> bool {
    t == Seq::<char>::empty() || exists|r: ReadingView| t == spec_render(spec_apply(r))
}

impl Snapshot {
    /// The slot as it stands before the first publish: empty text, so the
    /// metrics route serves an empty body until the first successful poll.
    pub fn new() -> (r: Snapshot)
        ensures
            r@ == Seq::<char>::empty(),
    {
        Snapshot { text: String::new() }
    }

    /// What a reader is served: the current text, whole.
    pub fn read(&self) -> (r: String)
        ensures
            r@ == self@,
    {
        self.text.clone()
    }
}

/// What one poll cycle came to; the caller logs it and waits for the next
/// tick whatever it was.
#[derive(Debug)]
pub enum PollOutcome {
    /// A fresh snapshot was rendered and published.
    Published,
    /// The fetch failed; registry and snapshot stand untouched.
    FetchFailed(HomeWizardError),
    /// The registry rejected the update; nothing was published.
    UpdateFailed(MetricsError),
    /// Rendering failed after the update; nothing was published.
    RenderFailed(MetricsError),
}

/// One tick of the poller: on a successful fetch the reading is applied to
/// the registry, the registry is rendered, and the render replaces the
/// snapshot whole; on a failed fetch nothing is touched, so the last good
/// snapshot stays visible — stale-but-valid data beats no data.
pub fn poll_step(metrics: &mut Metrics, slot: &mut Snapshot, fetched: Result<
    Reading,
    HomeWizardError,
>) -> (r: PollOutcome)
    ensures
        fetched matches Ok(data) ==> {
            &&& r is Published
            &&& final(metrics)@ == spec_apply(data@)
            &&& final(slot)@ == spec_render(spec_apply(data@))
        },
        fetched matches Err(e) ==> {
            &&& r matches PollOutcome::FetchFailed(e2) && e2 == e
            &&& final(metrics)@ == old(metrics)@
            &&& final(slot)@ == old(slot)@
        },
        is_published_text(old(slot)@) ==> is_published_text(final(slot)@),
{
    match fetched {
        Ok(data) => {
            match metrics.update(&data) {
                Ok(()) => {},
                Err(e) => {
                    return PollOutcome::UpdateFailed(e);
                },
            }
            match metrics.gather() {
                Ok(text) => {
                    slot.text = text;
                    PollOutcome::Published
                },
                Err(e) => PollOutcome::RenderFailed(e),
            }
        },
        Err(e) => PollOutcome::FetchFailed(e),
    }
}

/// Body of the liveness route: a fixed text, whatever state the poller is
/// in.
pub fn health_body() -> (r: &'static str)
    ensures
        r@ == "OK"@,
{
    "OK"
}

/// Body of the index route: a short description of the two routes above.
pub fn index_body() -> (r: &'static str)
    ensures
        r@
            == "HomeWizard Water Prometheus Exporter\n\nEndpoints:\n  /metrics - Prometheus metrics\n  /health  - Health check\n"@,
{
    "HomeWizard Water Prometheus Exporter\n\nEndpoints:\n  /metrics - Prometheus metrics\n  /health  - Health check\n"
}

} // verus!
