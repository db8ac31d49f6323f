use vstd::prelude::*;
use crate::report::{MouseReport, REPORT_LEN};

verus! {

/// Why a report was not accepted.
#[derive(Clone, Copy, Debug, PartialEq, Eq, Structural)]
pub enum SubmitError {
    /// The previous report has not been handed to the endpoint yet.
    Busy,
}

/// What can happen to the slot: the main loop submits a report, or the
/// interrupt services the device and finds the endpoint ready or not.
#[derive(Clone, Copy, Debug, PartialEq, Eq, Structural)]
pub enum SlotEvent {
    Submit(MouseReport),
    Service { endpoint_ready: bool },
}

/// The pending report after `e` happens to a slot holding `pending`.
pub open spec fn step(pending: Option<MouseReport>, e: SlotEvent) -> Option<MouseReport> {
    match e {
        SlotEvent::Submit(r) => if pending is None {
            Some(r)
        } else {
            pending
        },
        SlotEvent::Service { endpoint_ready } => if endpoint_ready {
            None
        } else {
            pending
        },
    }
}

/// The report that `e` takes into a slot holding `pending`, if any.
pub open spec fn accepted_by(pending: Option<MouseReport>, e: SlotEvent) -> Option<MouseReport> {
    match e {
        SlotEvent::Submit(r) => if pending is None {
            Some(r)
        } else {
            None
        },
        SlotEvent::Service { .. } => None,
    }
}

/// The report that `e` hands to the endpoint from a slot holding `pending`, if any.
pub open spec fn sent_by(pending: Option<MouseReport>, e: SlotEvent) -> Option<MouseReport> {
    match e {
        SlotEvent::Submit(_) => None,
        SlotEvent::Service { endpoint_ready } => if endpoint_ready {
            pending
        } else {
            None
        },
    }
}

/// An optional report as a run of zero or one reports.
pub open spec fn opt_seq(o: Option<MouseReport>) -> Seq<MouseReport> {
    match o {
        Some(r) => seq![r],
        None => Seq::empty(),
    }
}

/// The pending report after `events`, starting from an empty slot.
pub open spec fn pending_after(events: Seq<SlotEvent>) -> Option<MouseReport>
    decreases events.len(),
{
    if events.len() == 0 {
        None
    } else {
        step(pending_after(events.drop_last()), events.last())
    }
}

/// The reports that `events` took into an initially empty slot, in order.
pub open spec fn accepted_in(events: Seq<SlotEvent>) -> Seq<MouseReport>
    decreases events.len(),
{
    if events.len() == 0 {
        Seq::empty()
    } else {
        accepted_in(events.drop_last()) + opt_seq(
            accepted_by(pending_after(events.drop_last()), events.last()),
        )
    }
}

/// The reports that `events` handed to the endpoint, in order.
pub open spec fn sent_in(events: Seq<SlotEvent>) -> Seq<MouseReport>
    decreases events.len(),
{
    if events.len() == 0 {
        Seq::empty()
    } else {
        sent_in(events.drop_last()) + opt_seq(
            sent_by(pending_after(events.drop_last()), events.last()),
        )
    }
}

/// Single-slot hand-off of reports from the main loop (producer) to the USB
/// interrupt (consumer). Both sides reach it only through `&mut`, so each
/// operation is one indivisible step.
#[derive(Debug)]
pub struct ReportSlot {
    pending: Option<MouseReport>,
}

impl ReportSlot {
    /// The report waiting for the endpoint, if any.
    pub closed spec fn pending_spec(&self) -> Option<MouseReport> {
        self.pending
    }

    /// An empty slot.
    pub fn new() -> (s: ReportSlot)
        ensures
            s.pending_spec() is None,
    {
        ReportSlot { pending: None }
    }

    /// The report waiting for the endpoint, if any.
    pub fn pending(&self) -> (r: Option<MouseReport>)
        ensures
            r == self.pending_spec(),
    {
        self.pending
    }

    /// True while a submitted report has not yet gone to the endpoint.
    pub fn is_busy(&self) -> (b: bool)
        ensures
            b == (self.pending_spec() is Some),
    {
        self.pending.is_some()
    }

    /// Offers `report` for transmission. An empty slot takes it whole and
    /// reports its wire length; a full one refuses with `Busy` and keeps the
    /// report it holds.
    pub fn submit(&mut self, report: MouseReport) -> (res: Result<usize, SubmitError>)
        ensures
            final(self).pending_spec() == step(
                old(self).pending_spec(),
                SlotEvent::Submit(report),
            ),
            old(self).pending_spec() is None ==> res == Ok::<usize, SubmitError>(REPORT_LEN)
                && final(self).pending_spec() == Some(report),
            old(self).pending_spec() is Some ==> res == Err::<usize, SubmitError>(
                SubmitError::Busy,
            ) && final(self).pending_spec() == old(self).pending_spec(),
    {
        if self.pending.is_some() {
            Err(SubmitError::Busy)
        } else {
            self.pending = Some(report);
            Ok(REPORT_LEN)
        }
    }

    /// Records the outcome of offering the pending report to the endpoint:
    /// when the endpoint took it the slot empties and the report is returned.
    pub fn record_service(&mut self, endpoint_ready: bool) -> (sent: Option<MouseReport>)
        ensures
            final(self).pending_spec() == step(
                old(self).pending_spec(),
                SlotEvent::Service { endpoint_ready },
            ),
            sent == sent_by(old(self).pending_spec(), SlotEvent::Service { endpoint_ready }),
    {
        if endpoint_ready {
            let sent = self.pending;
            self.pending = None;
            sent
        } else {
            None
        }
    }
}

/// A report submitted to an empty slot is accepted whole, and the next
/// service that finds the endpoint ready hands exactly that report over;
/// one that finds it not ready keeps it for a later service.
pub proof fn lemma_submitted_report_reaches_next_service(r: MouseReport)
    ensures
        accepted_by(None, SlotEvent::Submit(r)) == Some(r),
        step(None, SlotEvent::Submit(r)) == Some(r),
        sent_by(Some(r), SlotEvent::Service { endpoint_ready: true }) == Some(r),
        step(Some(r), SlotEvent::Service { endpoint_ready: true }) is None,
        step(Some(r), SlotEvent::Service { endpoint_ready: false }) == Some(r),
{
}

/// A submission while a report is pending takes nothing in and leaves the
/// pending report exactly as it was.
pub proof fn lemma_busy_submit_keeps_pending(pending: MouseReport, r: MouseReport)
    ensures
        accepted_by(Some(pending), SlotEvent::Submit(r)) is None,
        step(Some(pending), SlotEvent::Submit(r)) == Some(pending),
{
}

/// However submissions and interrupt services interleave, no report is
/// lost, duplicated, reordered or left half-written: the reports accepted so
/// far are exactly those sent, followed by the whole pending report, if any.
pub proof fn lemma_interleavings_keep_reports_whole(events: Seq<SlotEvent>)
    ensures
        accepted_in(events) == sent_in(events) + opt_seq(pending_after(events)),
    decreases events.len(),
{
    if events.len() > 0 {
        let prev = events.drop_last();
        lemma_interleavings_keep_reports_whole(prev);
        let p = pending_after(prev);
        let e = events.last();
        assert(opt_seq(p) + opt_seq(accepted_by(p, e)) =~= opt_seq(sent_by(p, e)) + opt_seq(
            step(p, e),
        ));
        assert(accepted_in(events) =~= sent_in(events) + opt_seq(pending_after(events))) by {
            vstd::seq_lib::lemma_concat_associative(sent_in(prev), opt_seq(p), opt_seq(accepted_by(p, e)));
            vstd::seq_lib::lemma_concat_associative(sent_in(prev), opt_seq(sent_by(p, e)), opt_seq(step(p, e)));
        }
    }
}

} // verus!
