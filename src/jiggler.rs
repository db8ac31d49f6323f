use vstd::prelude::*;
use crate::handoff::{
    ReportSlot,
    SlotEvent,
    SubmitError,
    accepted_in,
    pending_after,
    sent_in,
    step,
};
use crate::report::{REPORT_LEN, total_dx, total_dy};
use crate::sequencer::{
    Direction,
    MovementSequencer,
    advance,
    lemma_square_returns_to_origin,
    reports_from,
};

verus! {

/// One period of the main loop: takes the next report of the square path and
/// offers it to the slot. A report refused with `Busy` is dropped; the path
/// moves on either way.
pub fn main_loop_step(
    sequencer: &mut MovementSequencer,
    slot: &mut ReportSlot,
) -> (res: Result<usize, SubmitError>)
    ensures
        final(sequencer).phase_spec() == old(sequencer).phase_spec().succ(),
        final(slot).pending_spec() == step(
            old(slot).pending_spec(),
            SlotEvent::Submit(old(sequencer).phase_spec().report_spec()),
        ),
        old(slot).pending_spec() is None ==> res == Ok::<usize, SubmitError>(REPORT_LEN),
        old(slot).pending_spec() is Some ==> res == Err::<usize, SubmitError>(SubmitError::Busy),
{
    let report = sequencer.next();
    slot.submit(report)
}

/// The events of `n` undisturbed cycles from phase `d`: each submits the
/// next report of the path, then an interrupt finds the endpoint ready.
pub open spec fn cycles(d: Direction, n: nat) -> Seq<SlotEvent>
    decreases n,
{
    if n == 0 {
        Seq::empty()
    } else {
        cycles(d, (n - 1) as nat) + seq![
            SlotEvent::Submit(advance(d, (n - 1) as nat).report_spec()),
            SlotEvent::Service { endpoint_ready: true },
        ]
    }
}

proof fn lemma_cycles_deliver_path(d: Direction, n: nat)
    ensures
        pending_after(cycles(d, n)) is None,
        sent_in(cycles(d, n)) == reports_from(d, n),
        accepted_in(cycles(d, n)) == reports_from(d, n),
    decreases n,
{
    if n > 0 {
        let m = (n - 1) as nat;
        lemma_cycles_deliver_path(d, m);
        let r = advance(d, m).report_spec();
        let prev = cycles(d, m);
        let mid = prev.push(SlotEvent::Submit(r));
        let all = cycles(d, n);
        assert(all.drop_last() =~= mid);
        assert(mid.drop_last() =~= prev);
        assert(all.last() == SlotEvent::Service { endpoint_ready: true });
        assert(mid.last() == SlotEvent::Submit(r));
        assert(pending_after(mid) == Some(r));
        assert(sent_in(mid) =~= sent_in(prev));
        assert(accepted_in(mid) =~= accepted_in(prev).push(r));
        assert(pending_after(all) is None);
        assert(sent_in(all) =~= sent_in(mid).push(r));
        assert(accepted_in(all) =~= accepted_in(mid));
        assert(reports_from(d, n) == reports_from(d, m).push(r));
    }
}

/// After four submission cycles in which every report reaches the endpoint,
/// the displacements sent to the host add up to nothing: the pointer is
/// back where it started.
pub proof fn lemma_four_cycles_return_to_origin(d: Direction)
    ensures
        pending_after(cycles(d, 4)) is None,
        total_dx(sent_in(cycles(d, 4))) == 0,
        total_dy(sent_in(cycles(d, 4))) == 0,
{
    lemma_cycles_deliver_path(d, 4);
    lemma_square_returns_to_origin(d);
}

} // verus!
