//! What holds of every run of the sending procedure: the order of its
//! phases, the bound on its farewell, and how it ends.
use crate::channel::{spec_receive_control, spec_written, Event};
use crate::client::PendingFile;
use crate::error::TransferError;
use crate::protocol::Message;
use crate::sender::model::{
    nothing_held, say, spec_goodbye, spec_send, spec_step, spec_steps, ClientActionView,
    SenderView,
};
use crate::sender::{Stage, Summary, MAX_GOODBYE_ATTEMPTS};
use vstd::prelude::*;

verus! {

/// The stages of the negotiating phase.
pub open spec fn is_negotiating(stage: Stage) -> bool {
    stage == Stage::Naming || stage == Stage::AwaitingAccept
}

/// The stages of the sending phase.
pub open spec fn is_sending(stage: Stage) -> bool {
    ||| stage == Stage::Measuring
    ||| stage == Stage::Prefixing
    ||| stage == Stage::Streaming
    ||| stage == Stage::AwaitingReceipt
    ||| stage == Stage::Finishing
}

/// The stages that can follow a stage in one step. The procedure moves
/// forward one stage at a time; it can end at once where a failure abandons
/// it, and only the farewell goes round.
pub open spec fn is_next_stage(before: Stage, after: Stage) -> bool {
    match before {
        Stage::Connecting => after == Stage::Requesting || after == Stage::Finished,
        Stage::Requesting => after == Stage::AwaitingReply || after == Stage::Finished,
        Stage::AwaitingReply => after == Stage::Naming || after == Stage::Finished,
        Stage::Naming => after == Stage::AwaitingAccept || after == Stage::Finished,
        Stage::AwaitingAccept => after == Stage::Measuring || after == Stage::Parting,
        Stage::Measuring => after == Stage::Prefixing || after == Stage::Finished,
        Stage::Prefixing => after == Stage::Streaming || after == Stage::Finished,
        Stage::Streaming => after == Stage::AwaitingReceipt || after == Stage::Finished,
        Stage::AwaitingReceipt => after == Stage::Finishing,
        Stage::Finishing => after == Stage::Parting || after == Stage::Finished,
        Stage::Parting => after == Stage::AwaitingGoodbye || after == Stage::Parting || after
            == Stage::Finished,
        Stage::AwaitingGoodbye => after == Stage::Parting || after == Stage::Finished,
        Stage::Finished => after == Stage::Finished,
    }
}

/// One stage at a time, in order: whatever the outcome, a step leads to a
/// stage that can follow. When the negotiation or the transfer is left for
/// the farewell, the pending file is cleared.
pub proof fn lemma_stages_advance_in_order(state: SenderView, event: Event)
    ensures
        is_next_stage(state.stage(), spec_step(state, event).0.stage()),
        (is_negotiating(state.stage()) || is_sending(state.stage())) ==> (spec_step(
            state,
            event,
        ).0 matches SenderView::Parting(held, failures, _) ==> held == nothing_held() && failures
            == 0),
{
}

/// `Ack` arrived as the `at`-th outcome of the run, while the procedure stood
/// at `stage`.
pub open spec fn acknowledged_at(
    state: SenderView,
    events: Seq<Event>,
    at: int,
    stage: Stage,
) -> bool {
    &&& 0 <= at < events.len()
    &&& spec_steps(state, events.take(at)).stage() == stage
    &&& spec_receive_control(events[at]) == Ok::<Message, TransferError>(Message::Ack)
}

/// Phase ordering, step by step. The negotiating phase is entered only from
/// the stage that awaits the reply to the request, and only on `Ack`; the
/// sending phase is entered only from the stage that awaits the reply to the
/// file name, and only on `Ack`; and that reply is awaited only once the name
/// was written in full.
pub proof fn lemma_phase_entered_on_ack(state: SenderView, event: Event)
    ensures
        is_negotiating(spec_step(state, event).0.stage()) && !is_negotiating(state.stage()) ==> {
            &&& state.stage() == Stage::AwaitingReply
            &&& spec_receive_control(event) == Ok::<Message, TransferError>(Message::Ack)
        },
        is_sending(spec_step(state, event).0.stage()) && !is_sending(state.stage()) ==> {
            &&& state.stage() == Stage::AwaitingAccept
            &&& spec_receive_control(event) == Ok::<Message, TransferError>(Message::Ack)
        },
        spec_step(state, event).0.stage() == Stage::AwaitingAccept ==> {
            &&& state matches SenderView::Naming(name)
            &&& event == Event::Written(name.len() as u64)
        },
{
}

/// Phase ordering, over whole runs. However the operations end, a procedure
/// begun with `send` stands in the negotiating phase only after `Ack` came
/// in reply to the request, and in the sending phase only after, later,
/// `Ack` came in reply to the file name as well.
pub proof fn lemma_sending_follows_two_acks(
    held: PendingFile,
    path: Seq<u8>,
    opened: Event,
    events: Seq<Event>,
)
    ensures
        ({
            let begun = spec_send(held, path, opened).0;
            let stage = spec_steps(begun, events).stage();
            &&& is_negotiating(stage) || is_sending(stage) ==> exists|i: int| #[trigger]
                acknowledged_at(begun, events, i, Stage::AwaitingReply)
            &&& is_sending(stage) ==> exists|i: int, j: int|
                i < j && #[trigger] acknowledged_at(begun, events, i, Stage::AwaitingReply)
                    && #[trigger] acknowledged_at(begun, events, j, Stage::AwaitingAccept)
        }),
    decreases events.len(),
{
    let begun = spec_send(held, path, opened).0;
    if events.len() > 0 {
        let before = events.drop_last();
        let last = events.len() - 1;
        let state = spec_steps(begun, before);
        lemma_sending_follows_two_acks(held, path, opened, before);
        lemma_phase_entered_on_ack(state, events.last());
        assert(before =~= events.take(last));
        assert forall|i: int, stage: Stage| #[trigger]
            acknowledged_at(begun, before, i, stage) implies acknowledged_at(
            begun,
            events,
            i,
            stage,
        ) by {
            assert(before.take(i) =~= events.take(i));
        }
        let stage = spec_steps(begun, events).stage();
        if is_negotiating(stage) && !is_negotiating(state.stage()) {
            assert(acknowledged_at(begun, events, last, Stage::AwaitingReply));
        }
        if is_negotiating(stage) || is_sending(stage) {
            if is_negotiating(state.stage()) || is_sending(state.stage()) {
                let i = choose|i: int| #[trigger]
                    acknowledged_at(begun, before, i, Stage::AwaitingReply);
                assert(acknowledged_at(begun, events, i, Stage::AwaitingReply));
            }
        }
        if is_sending(stage) {
            if is_sending(state.stage()) {
                let (i, j) = choose|i: int, j: int|
                    i < j && #[trigger] acknowledged_at(begun, before, i, Stage::AwaitingReply)
                        && #[trigger] acknowledged_at(begun, before, j, Stage::AwaitingAccept);
                assert(acknowledged_at(begun, events, i, Stage::AwaitingReply));
                assert(acknowledged_at(begun, events, j, Stage::AwaitingAccept));
            } else {
                let i = choose|i: int| #[trigger]
                    acknowledged_at(begun, before, i, Stage::AwaitingReply);
                assert(acknowledged_at(begun, events, i, Stage::AwaitingReply));
                assert(acknowledged_at(begun, events, last, Stage::AwaitingAccept));
            }
        }
    }
}

/// The goodbye retry bound. If every write of `Goodbye` fails, the farewell
/// writes it again after each of the first four failures, and gives up on
/// the fifth: the procedure is over, the client is disconnected and holds
/// what it held, and it carries the error of the last attempt.
pub proof fn lemma_goodbye_gives_up(held: PendingFile, summary: Summary, events: Seq<Event>)
    requires
        events.len() <= MAX_GOODBYE_ATTEMPTS,
        forall|i: int| 0 <= i < events.len() ==> spec_written(#[trigger] events[i], 1) is Err,
    ensures
        ({
            let begun = spec_goodbye(held, summary).0;
            if events.len() < MAX_GOODBYE_ATTEMPTS {
                spec_steps(begun, events) == SenderView::Parting(held, events.len(), summary)
            } else {
                spec_steps(begun, events) == SenderView::Finished(
                    held,
                    Some(spec_written(events.last(), 1)->Err_0),
                    Ok(()),
                    summary,
                )
            }
        }),
        events.len() > 0 ==> spec_step(
            spec_steps(spec_goodbye(held, summary).0, events.drop_last()),
            events.last(),
        ).1 == if events.len() < MAX_GOODBYE_ATTEMPTS {
            say(Message::Goodbye)
        } else {
            ClientActionView::Close
        },
    decreases events.len(),
{
    if events.len() > 0 {
        lemma_goodbye_gives_up(held, summary, events.drop_last());
    }
}

/// Once over, the procedure stays over: every further outcome is answered
/// with `Close` and changes nothing.
pub proof fn lemma_finished_is_final(state: SenderView, event: Event)
    requires
        state.stage() == Stage::Finished,
    ensures
        spec_step(state, event) == (state, ClientActionView::Close),
{
}

/// The procedure reports an error as its result only when it was abandoned,
/// and the disconnected client then carries that error.
pub proof fn lemma_error_is_carried(state: SenderView, event: Event)
    ensures
        state.stage() != Stage::Finished ==> (spec_step(state, event).0 matches SenderView::Finished(
            _,
            carried,
            Err(error),
            summary,
        ) ==> carried == Some(error) && summary == Summary::Abandoned),
{
}

} // verus!
