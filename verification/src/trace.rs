//! Runs of the update flow, and what holds of every download.
//!
//! A run feeds the flow a sequence of events and collects the actions it
//! answers with. Two projections read a run as the outside world sees it:
//! the bytes that were asked to be written, and the percentages that were
//! asked to be reported.

use vstd::prelude::*;
use crate::progress::{
    lemma_percent_full, lemma_percent_monotonic, reported_percent, TransferView,
};
use crate::update::{
    installer_args, ActionView, EventView, PhaseView, ARTIFACT_FILE_NAME, HANDOFF_EXIT_STATUS,
    HANDOFF_GRACE_MS,
};

verus! {

/// The phase a flow that stood at `flow` is in after `events` in turn, and
/// the actions it gave along the way. An event that is turned away changes
/// nothing and leaves no action.
pub open spec fn run(flow: PhaseView, events: Seq<EventView>) -> (PhaseView, Seq<ActionView>)
    decreases events.len(),
{
    if events.len() == 0 {
        (flow, Seq::empty())
    } else {
        let (before, actions) = run(flow, events.drop_last());
        match before.step(events.last()) {
            Some((after, action)) => (after, actions.push(action)),
            None => (before, actions),
        }
    }
}

/// The bytes that `actions` ask to be appended to the file, in order.
pub open spec fn written(actions: Seq<ActionView>) -> Seq<u8>
    decreases actions.len(),
{
    if actions.len() == 0 {
        Seq::empty()
    } else {
        let earlier = written(actions.drop_last());
        match actions.last() {
            ActionView::WriteChunk(bytes) => earlier + bytes,
            _ => earlier,
        }
    }
}

/// The percentages that `actions` ask to be reported, in order.
pub open spec fn reported(actions: Seq<ActionView>) -> Seq<u32>
    decreases actions.len(),
{
    if actions.len() == 0 {
        Seq::empty()
    } else {
        let earlier = reported(actions.drop_last());
        match actions.last() {
            ActionView::ReceiveChunk { progress: Some(percent) } => earlier.push(percent),
            _ => earlier,
        }
    }
}

/// The chunks laid end to end: the body as the server sent it.
pub open spec fn joined(chunks: Seq<Seq<u8>>) -> Seq<u8>
    decreases chunks.len(),
{
    if chunks.len() == 0 {
        Seq::empty()
    } else {
        joined(chunks.drop_last()) + chunks.last()
    }
}

/// The events of a body that arrives as `chunks`, each written without
/// fault before the next is asked for.
pub open spec fn delivery(chunks: Seq<Seq<u8>>) -> Seq<EventView>
    decreases chunks.len(),
{
    if chunks.len() == 0 {
        Seq::empty()
    } else {
        delivery(chunks.drop_last()).push(EventView::ChunkReceived(chunks.last())).push(
            EventView::ChunkWritten,
        )
    }
}

/// The events of an update in which nothing fails: the response declares
/// `content_length`, the file is created, the body arrives as `chunks`, the
/// file is closed and the installer starts.
pub open spec fn faultless(content_length: Option<u64>, chunks: Seq<Seq<u8>>) -> Seq<EventView> {
    seq![EventView::ResponseReceived { content_length }, EventView::FileCreated] + delivery(
        chunks,
    ) + seq![
        EventView::StreamEnded,
        EventView::FileClosed,
        EventView::InstallerSpawned,
    ]
}

/// Whether no percentage in `reports` is lower than one before it.
pub open spec fn non_decreasing(reports: Seq<u32>) -> bool {
    forall|i: int, j: int| 0 <= i <= j < reports.len() ==> reports[i] <= reports[j]
}

/// The actions that answer `delivery(chunks)` from a transfer that stands
/// at `transfer`.
pub open spec fn streaming(transfer: TransferView, chunks: Seq<Seq<u8>>) -> Seq<ActionView>
    decreases chunks.len(),
{
    if chunks.len() == 0 {
        Seq::empty()
    } else {
        streaming(transfer, chunks.drop_last()).push(ActionView::WriteChunk(chunks.last())).push(
            ActionView::ReceiveChunk {
                progress: transfer.record(joined(chunks).len()).percentage(),
            },
        )
    }
}

/// A run over one more event is the run so far, carried on by one step.
pub proof fn lemma_run_push(flow: PhaseView, events: Seq<EventView>, event: EventView)
    ensures
        run(flow, events.push(event)) == match run(flow, events).0.step(event) {
            Some((after, action)) => (after, run(flow, events).1.push(action)),
            None => run(flow, events),
        },
{
    assert(events.push(event).drop_last() =~= events);
    assert(events.push(event).last() == event);
}

/// Actions of which none is a write or carries a report leave no trace.
pub proof fn lemma_silent(actions: Seq<ActionView>)
    requires
        forall|i: int|
            0 <= i < actions.len() ==> !(#[trigger] actions[i] is WriteChunk) && !(actions[i]
                matches ActionView::ReceiveChunk { progress: Some(_) }),
    ensures
        written(actions).len() == 0,
        reported(actions).len() == 0,
    decreases actions.len(),
{
    if actions.len() > 0 {
        lemma_silent(actions.drop_last());
        assert(actions.last() == actions[actions.len() - 1]);
    }
}

/// A run over two stretches of events is the run over the first, carried
/// on over the second.
pub proof fn lemma_run_concat(flow: PhaseView, first: Seq<EventView>, second: Seq<EventView>)
    ensures
        run(flow, first + second) == (
            run(run(flow, first).0, second).0,
            run(flow, first).1 + run(run(flow, first).0, second).1,
        ),
    decreases second.len(),
{
    let (middle, head) = run(flow, first);
    if second.len() == 0 {
        assert(first + second =~= first);
        assert(head + Seq::<ActionView>::empty() =~= head);
    } else {
        assert((first + second).drop_last() =~= first + second.drop_last());
        assert((first + second).last() == second.last());
        lemma_run_concat(flow, first, second.drop_last());
        let (before, tail) = run(middle, second.drop_last());
        match before.step(second.last()) {
            Some((after, action)) => {
                assert((head + tail).push(action) =~= head + tail.push(action));
            },
            None => {},
        }
    }
}

/// What is written over two stretches of actions is what is written over
/// each, end to end; likewise what is reported.
pub proof fn lemma_projections_concat(first: Seq<ActionView>, second: Seq<ActionView>)
    ensures
        written(first + second) == written(first) + written(second),
        reported(first + second) == reported(first) + reported(second),
    decreases second.len(),
{
    if second.len() == 0 {
        assert(first + second =~= first);
        assert(written(first) + written(second) =~= written(first));
        assert(reported(first) + reported(second) =~= reported(first));
    } else {
        assert((first + second).drop_last() =~= first + second.drop_last());
        assert((first + second).last() == second.last());
        lemma_projections_concat(first, second.drop_last());
        let w = written(second.drop_last());
        let r = reported(second.drop_last());
        match second.last() {
            ActionView::WriteChunk(bytes) => {
                assert((written(first) + w) + bytes =~= written(first) + (w + bytes));
            },
            ActionView::ReceiveChunk { progress: Some(percent) } => {
                assert((reported(first) + r).push(percent) =~= reported(first) + r.push(percent));
            },
            _ => {},
        }
    }
}

/// From a flow that waits for a chunk, a delivery is answered chunk by
/// chunk with a write and a wait, and leaves the flow waiting again with
/// every byte counted.
pub proof fn lemma_delivery_run(transfer: TransferView, chunks: Seq<Seq<u8>>)
    requires
        transfer.fits(joined(chunks).len()),
    ensures
        run(PhaseView::Receiving(transfer), delivery(chunks)) == (
            PhaseView::Receiving(transfer.record(joined(chunks).len())),
            streaming(transfer, chunks),
        ),
    decreases chunks.len(),
{
    let flow = PhaseView::Receiving(transfer);
    if chunks.len() == 0 {
        assert(transfer.record(0) == transfer);
    } else {
        let earlier = chunks.drop_last();
        let chunk = chunks.last();
        lemma_delivery_run(transfer, earlier);
        let received = EventView::ChunkReceived(chunk);
        let so_far = delivery(earlier).push(received);
        let waiting = PhaseView::Receiving(transfer.record(joined(earlier).len()));
        let counted = transfer.record(joined(earlier).len()).record(chunk.len());
        let write = ActionView::WriteChunk(chunk);
        let wait = ActionView::ReceiveChunk { progress: counted.percentage() };
        assert(counted == transfer.record(joined(chunks).len()));
        assert(waiting.step(received) == Some((PhaseView::Writing(counted), write)));
        lemma_run_push(flow, delivery(earlier), received);
        assert(run(flow, so_far) == (
            PhaseView::Writing(counted),
            streaming(transfer, earlier).push(write),
        ));
        assert(PhaseView::Writing(counted).step(EventView::ChunkWritten) == Some(
            (PhaseView::Receiving(counted), wait),
        ));
        lemma_run_push(flow, so_far, EventView::ChunkWritten);
    }
}

/// What a delivery asks to be written is the body, byte for byte.
pub proof fn lemma_streaming_writes(transfer: TransferView, chunks: Seq<Seq<u8>>)
    ensures
        written(streaming(transfer, chunks)) == joined(chunks),
    decreases chunks.len(),
{
    if chunks.len() > 0 {
        let earlier = chunks.drop_last();
        lemma_streaming_writes(transfer, earlier);
        let write = streaming(transfer, earlier).push(ActionView::WriteChunk(chunks.last()));
        assert(write.drop_last() == streaming(transfer, earlier)) by {
            assert(write.drop_last() =~= streaming(transfer, earlier));
        }
        assert(written(write) == joined(earlier) + chunks.last());
        assert(streaming(transfer, chunks).drop_last() == write) by {
            assert(streaming(transfer, chunks).drop_last() =~= write);
        }
        assert(written(streaming(transfer, chunks)) == written(write));
    }
}

/// What a delivery asks to be reported: nothing while the size is unknown;
/// else one percentage for each chunk, none lower than one before it, and
/// none above the percentage of all bytes counted at the end.
pub proof fn lemma_streaming_reports(transfer: TransferView, chunks: Seq<Seq<u8>>)
    ensures
        transfer.total_size == 0 ==> reported(streaming(transfer, chunks)).len() == 0,
        transfer.total_size > 0 ==> {
            let reports = reported(streaming(transfer, chunks));
            &&& reports.len() == chunks.len()
            &&& non_decreasing(reports)
            &&& forall|i: int|
                0 <= i < reports.len() ==> reports[i] <= reported_percent(
                    transfer.bytes_downloaded + joined(chunks).len(),
                    transfer.total_size,
                )
            &&& chunks.len() > 0 ==> reports.last() == reported_percent(
                transfer.bytes_downloaded + joined(chunks).len(),
                transfer.total_size,
            )
        },
    decreases chunks.len(),
{
    if chunks.len() > 0 {
        let earlier = chunks.drop_last();
        lemma_streaming_reports(transfer, earlier);
        let before = streaming(transfer, earlier);
        let write = before.push(ActionView::WriteChunk(chunks.last()));
        let progress = transfer.record(joined(chunks).len()).percentage();
        assert(write.drop_last() == before) by {
            assert(write.drop_last() =~= before);
        }
        assert(reported(write) == reported(before));
        assert(streaming(transfer, chunks).drop_last() == write) by {
            assert(streaming(transfer, chunks).drop_last() =~= write);
        }
        assert(streaming(transfer, chunks).last() == (ActionView::ReceiveChunk { progress }));
        if transfer.total_size > 0 {
            let percent = reported_percent(
                transfer.bytes_downloaded + joined(chunks).len(),
                transfer.total_size,
            );
            assert(progress == Some(percent));
            assert(reported(streaming(transfer, chunks)) == reported(before).push(percent));
            lemma_percent_monotonic(
                transfer.bytes_downloaded + joined(earlier).len(),
                transfer.bytes_downloaded + joined(chunks).len(),
                transfer.total_size,
            );
        } else {
            assert(progress is None);
            assert(reported(streaming(transfer, chunks)) == reported(before));
        }
    }
}

/// In an update in which nothing fails, the flow asks for exactly the body
/// to be written, byte for byte and in order, whatever size the response
/// declared and however the body is cut into chunks. The percentages it
/// asks to be reported never decrease. The update ends in the hand-off:
/// the last action is the exit, after the grace interval and with the
/// success status.
pub proof fn lemma_faultless_update(content_length: Option<u64>, chunks: Seq<Seq<u8>>)
    requires
        joined(chunks).len() <= u64::MAX,
    ensures
        ({
            let (end, actions) = run(PhaseView::Requesting, faultless(content_length, chunks));
            &&& end == PhaseView::Finished
            &&& written(actions) == joined(chunks)
            &&& non_decreasing(reported(actions))
            &&& reported(actions) == reported(
                streaming(TransferView::begin(content_length), chunks),
            )
            &&& actions.len() > 0
            &&& actions.last() == (ActionView::Exit {
                grace_ms: HANDOFF_GRACE_MS,
                status: HANDOFF_EXIT_STATUS,
            })
        }),
{
    let start = PhaseView::Requesting;
    let transfer = TransferView::begin(content_length);
    let receiving = PhaseView::Receiving(transfer);
    let drained = PhaseView::Receiving(transfer.record(joined(chunks).len()));
    let none = Seq::<EventView>::empty();

    let responded = EventView::ResponseReceived { content_length };
    let opening = seq![responded, EventView::FileCreated];
    let create = ActionView::CreateFile { name: ARTIFACT_FILE_NAME@ };
    let wait = ActionView::ReceiveChunk { progress: None };
    let opened = seq![create, wait];
    assert(run(start, opening) == (receiving, opened)) by {
        lemma_run_push(start, none, responded);
        lemma_run_push(start, none.push(responded), EventView::FileCreated);
        assert(opening =~= none.push(responded).push(EventView::FileCreated));
        assert(opened =~= Seq::<ActionView>::empty().push(create).push(wait));
    }

    let closing = seq![EventView::StreamEnded, EventView::FileClosed, EventView::InstallerSpawned];
    let spawn = ActionView::SpawnInstaller { args: installer_args() };
    let exit = ActionView::Exit { grace_ms: HANDOFF_GRACE_MS, status: HANDOFF_EXIT_STATUS };
    let closed = seq![ActionView::CloseFile, spawn, exit];
    assert(run(drained, closing) == (PhaseView::Finished, closed)) by {
        let ended = none.push(EventView::StreamEnded);
        lemma_run_push(drained, none, EventView::StreamEnded);
        lemma_run_push(drained, ended, EventView::FileClosed);
        lemma_run_push(drained, ended.push(EventView::FileClosed), EventView::InstallerSpawned);
        assert(closing =~= ended.push(EventView::FileClosed).push(EventView::InstallerSpawned));
        assert(closed =~= Seq::<ActionView>::empty().push(ActionView::CloseFile).push(spawn).push(
            exit,
        ));
    }

    let middle = streaming(transfer, chunks);
    lemma_delivery_run(transfer, chunks);
    lemma_run_concat(start, opening, delivery(chunks));
    lemma_run_concat(start, opening + delivery(chunks), closing);
    let actions = run(start, faultless(content_length, chunks)).1;
    assert(actions == opened + middle + closed);

    lemma_projections_concat(opened, middle);
    lemma_projections_concat(opened + middle, closed);
    lemma_silent(opened);
    lemma_silent(closed);
    lemma_streaming_writes(transfer, chunks);
    lemma_streaming_reports(transfer, chunks);
    assert(written(actions) =~= joined(chunks));
    assert(reported(actions) =~= reported(middle));
}

/// A download whose response declares exactly the size of its body: one
/// percentage is reported for each chunk, none lower than one before it
/// and none above 100, the last one is 100, and what is written is the
/// body, byte for byte, of the declared size.
pub proof fn lemma_declared_size_download(size: u64, chunks: Seq<Seq<u8>>)
    requires
        size > 0,
        joined(chunks).len() == size,
    ensures
        ({
            let actions = run(PhaseView::Requesting, faultless(Some(size), chunks)).1;
            let reports = reported(actions);
            &&& written(actions) == joined(chunks)
            &&& written(actions).len() == size
            &&& reports.len() == chunks.len()
            &&& reports.len() > 0
            &&& non_decreasing(reports)
            &&& forall|i: int| 0 <= i < reports.len() ==> reports[i] <= 100
            &&& reports.last() == 100
        }),
{
    lemma_faultless_update(Some(size), chunks);
    lemma_streaming_reports(TransferView::begin(Some(size)), chunks);
    lemma_percent_full(size as nat);
    assert(chunks.len() > 0);
}

/// A download whose response declares no size, or a size of zero: nothing
/// is reported, and what is written still is the body, byte for byte.
pub proof fn lemma_undeclared_size_download(content_length: Option<u64>, chunks: Seq<Seq<u8>>)
    requires
        content_length is None || content_length == Some(0u64),
        joined(chunks).len() <= u64::MAX,
    ensures
        ({
            let actions = run(PhaseView::Requesting, faultless(content_length, chunks)).1;
            &&& written(actions) == joined(chunks)
            &&& reported(actions).len() == 0
        }),
{
    lemma_faultless_update(content_length, chunks);
    lemma_streaming_reports(TransferView::begin(content_length), chunks);
}

/// An action ends the update, by the exit or by a failure, exactly when it
/// leaves the flow finished; and a finished flow waits for nothing.
pub proof fn lemma_final_action_finishes(phase: PhaseView, event: EventView)
    ensures
        phase.step(event) matches Some((after, action)) ==> (action.is_final() <==> after
            is Finished),
        phase is Finished ==> phase.step(event) is None,
{
}

} // verus!
