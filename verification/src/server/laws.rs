//! What holds of every run of a server: the order of its phases, what it
//! writes to the destination file and where, and the bound on its goodbye.
use crate::channel::{spec_receive_control, spec_written, Event};
use crate::error::TransferError;
use crate::path::{
    is_plain_name, lemma_destination_inside_root, lemma_destination_is_utf8, spec_base_name,
    spec_join,
};
use crate::protocol::{Message, State};
use crate::server::model::{
    reply, spec_abort, spec_built, spec_drop, spec_goodbye, spec_run, spec_runs,
    ServerActionView, ServerView,
};
use crate::server::{Pending, MAX_GOODBYE_ATTEMPTS};
use crate::transfer::{lemma_accepted_is_stream_prefix, spec_accepted, spec_take_chunk};
use vstd::prelude::*;
use vstd::utf8::valid_utf8;

verus! {

/// The operations of the receiving phase.
pub open spec fn is_receiving(pending: Pending) -> bool {
    ||| pending == Pending::Prefix
    ||| pending == Pending::Create
    ||| pending == Pending::Chunk
    ||| pending is Append
    ||| pending == Pending::Flush
    ||| pending == Pending::FileAck
}

/// What holds of a server at every point of every run: the phase is unset
/// exactly while no connection is held, the awaited operation belongs to the
/// phase, a name is held from the moment it is acknowledged and is UTF-8, and
/// the count of bytes owed agrees with the awaited operation.
pub open spec fn is_consistent(server: ServerView) -> bool {
    &&& server.connected <==> server.pending != Pending::Accept
    &&& server.state is None <==> server.pending == Pending::Accept
    &&& server.pending == Pending::Control || server.pending == Pending::RequestAck
        ==> server.state == Some(State::Connected)
    &&& server.pending == Pending::Name || server.pending == Pending::NameAck ==> server.state
        == Some(State::Negotiating)
    &&& is_receiving(server.pending) ==> server.state == Some(State::Receiving)
    &&& server.pending == Pending::NameAck || is_receiving(server.pending)
        ==> server.filename is Some
    &&& server.filename matches Some(name) ==> valid_utf8(name)
    &&& server.pending == Pending::Chunk ==> server.remaining > 0
    &&& server.pending matches Pending::Append(count) ==> 0 < count <= server.remaining
    &&& server.pending == Pending::Flush || server.pending == Pending::FileAck
        ==> server.remaining == 0
    &&& server.pending == Pending::Goodbye ==> server.failures < MAX_GOODBYE_ATTEMPTS
}

/// One phase at a time, in order. A step leaves the phase as it is, or
/// moves it one phase on: from none to connected when a connection is
/// accepted, from connected to negotiating, from negotiating to receiving,
/// from receiving back to connected when a file is complete; or it unsets
/// the phase, when the connection is dropped.
pub open spec fn is_next_phase(before: Option<State>, after: Option<State>) -> bool {
    ||| after == before
    ||| after is None
    ||| before is None && after == Some(State::Connected)
    ||| before == Some(State::Connected) && after == Some(State::Negotiating)
    ||| before == Some(State::Negotiating) && after == Some(State::Receiving)
    ||| before == Some(State::Receiving) && after == Some(State::Connected)
}

/// Whether `event` is an outcome of the operation that `pending` names: a
/// read ends in bytes, the end of the stream or a fault; a write in a count
/// or a fault; any other operation in success or a fault.
pub open spec fn answers(pending: Pending, event: Event) -> bool {
    match pending {
        Pending::Accept | Pending::Create | Pending::Flush | Pending::Shutdown => event
            is Completed || event is Failed,
        Pending::Control => event is Byte || event is Closed || event is Failed,
        Pending::Name | Pending::Chunk => event is Payload || event is Closed || event is Failed,
        Pending::Prefix => (event matches Event::Payload(prefix) && prefix@.len() == 8)
            || event is Closed || event is Failed,
        Pending::RequestAck
        | Pending::NameAck
        | Pending::FileAck
        | Pending::Goodbye
        | Pending::Append(_) => event is Written || event is Failed,
    }
}

/// A server that was just built is consistent, and every step keeps a
/// consistent server consistent, moves its phase in order and leaves its
/// directory alone. On a consistent server an outcome of the awaited
/// operation never raises `ProtocolInvariantViolation`: no step finds the
/// phase or the name unset where it is needed, and no write to the
/// destination file exceeds what is owed.
pub proof fn lemma_consistency_is_kept(server: ServerView, event: Event)
    requires
        is_consistent(server),
    ensures
        is_consistent(spec_built(server.directory)),
        is_consistent(spec_run(server, event).0),
        is_next_phase(server.state, spec_run(server, event).0.state),
        spec_run(server, event).0.directory == server.directory,
        answers(server.pending, event) && spec_run(server, event).0.error == Some(
            TransferError::ProtocolInvariantViolation,
        ) ==> server.error == Some(TransferError::ProtocolInvariantViolation),
{
}

/// Every server that a run from a fresh build can reach is consistent.
pub proof fn lemma_runs_are_consistent(directory: Seq<u8>, events: Seq<Event>)
    ensures
        is_consistent(spec_runs(spec_built(directory), events)),
        spec_runs(spec_built(directory), events).directory == directory,
    decreases events.len(),
{
    if events.len() > 0 {
        lemma_runs_are_consistent(directory, events.drop_last());
        lemma_consistency_is_kept(
            spec_runs(spec_built(directory), events.drop_last()),
            events.last(),
        );
    }
}

/// The `at`-th outcome of the run was the file name, read while the server
/// awaited it, and the name was UTF-8.
pub open spec fn name_received_at(server: ServerView, events: Seq<Event>, at: int) -> bool {
    &&& 0 <= at < events.len()
    &&& spec_runs(server, events.take(at)).pending == Pending::Name
    &&& events[at] matches Event::Payload(name)
    &&& valid_utf8(name@)
}

/// The `at`-th outcome of the run was the full write of `Ack` in reply to
/// the file name.
pub open spec fn name_acknowledged_at(server: ServerView, events: Seq<Event>, at: int) -> bool {
    &&& 0 <= at < events.len()
    &&& spec_runs(server, events.take(at)).pending == Pending::NameAck
    &&& events[at] == Event::Written(1)
}

/// From the `from`-th outcome on, the run never awaited a new connection:
/// all of it belongs to one connection.
pub open spec fn same_connection_since(
    server: ServerView,
    events: Seq<Event>,
    from: int,
) -> bool {
    forall|k: int|
        from <= k <= events.len() ==> (#[trigger] spec_runs(server, events.take(k))).pending
            != Pending::Accept
}

/// Phase ordering, step by step. The size prefix is asked for only when
/// `Ack` was written in reply to the file name; that `Ack` is written only
/// when a name that is UTF-8 arrived; and the name is asked for only when
/// `Ack` was written in reply to a request.
pub proof fn lemma_receiving_entered_after_name(server: ServerView, event: Event)
    ensures
        is_receiving(spec_run(server, event).0.pending) && !is_receiving(server.pending) ==> {
            &&& server.pending == Pending::NameAck
            &&& event == Event::Written(1)
            &&& spec_run(server, event) == (
                ServerView {
                    state: Some(State::Receiving),
                    pending: Pending::Prefix,
                    ..server
                },
                ServerActionView::ReadPrefix,
            )
        },
        spec_run(server, event).0.pending == Pending::NameAck ==> {
            &&& server.pending == Pending::Name
            &&& event matches Event::Payload(name)
            &&& valid_utf8(name@)
            &&& spec_run(server, event).0.filename == Some(name@)
        },
        spec_run(server, event).0.pending == Pending::Name ==> {
            &&& server.pending == Pending::RequestAck
            &&& event == Event::Written(1)
        },
        spec_run(server, event).0.pending == Pending::RequestAck ==> {
            &&& server.pending == Pending::Control
            &&& spec_receive_control(event) == Ok::<Message, TransferError>(
                Message::FileTransferRequest,
            )
        },
{
}

/// What was found of a run stays true when the run goes on: the outcomes
/// before the last are met in the same states.
proof fn lemma_run_extends(built: ServerView, events: Seq<Event>, i: int)
    requires
        events.len() > 0,
        0 <= i < events.len() - 1,
    ensures
        name_received_at(built, events.drop_last(), i) ==> name_received_at(built, events, i),
        name_acknowledged_at(built, events.drop_last(), i) ==> name_acknowledged_at(
            built,
            events,
            i,
        ),
        same_connection_since(built, events.drop_last(), i) && spec_runs(built, events).pending
            != Pending::Accept ==> same_connection_since(built, events, i),
{
    let before = events.drop_last();
    assert(before.take(i) =~= events.take(i));
    if same_connection_since(built, before, i) && spec_runs(built, events).pending
        != Pending::Accept {
        assert forall|k: int| i <= k <= events.len() implies (#[trigger] spec_runs(
            built,
            events.take(k),
        )).pending != Pending::Accept by {
            if k < events.len() {
                assert(before.take(k) =~= events.take(k));
            } else {
                assert(events.take(k) =~= events);
            }
        }
    }
}

/// Phase ordering, over whole runs. However the operations end, a server
/// stands in the receiving phase (where it takes a size prefix and the file)
/// only if, on the same connection, the file name arrived first and `Ack`
/// was then written in reply to it.
pub proof fn lemma_receiving_follows_negotiation(directory: Seq<u8>, events: Seq<Event>)
    ensures
        ({
            let built = spec_built(directory);
            let pending = spec_runs(built, events).pending;
            &&& pending == Pending::NameAck || is_receiving(pending) ==> exists|i: int|
                #[trigger] name_received_at(built, events, i) && same_connection_since(
                    built,
                    events,
                    i,
                )
            &&& is_receiving(pending) ==> exists|i: int, j: int|
                i < j && #[trigger] name_received_at(built, events, i)
                    && #[trigger] name_acknowledged_at(built, events, j)
                    && same_connection_since(built, events, i)
        }),
    decreases events.len(),
{
    let built = spec_built(directory);
    if events.len() > 0 {
        let before = events.drop_last();
        let last = events.len() - 1;
        let server = spec_runs(built, before);
        lemma_receiving_follows_negotiation(directory, before);
        lemma_receiving_entered_after_name(server, events.last());
        let pending = spec_runs(built, events).pending;
        if pending == Pending::NameAck {
            assert(before =~= events.take(last));
            assert(name_received_at(built, events, last));
            assert(same_connection_since(built, events, last)) by {
                assert forall|k: int| last <= k <= events.len() implies (#[trigger] spec_runs(
                    built,
                    events.take(k),
                )).pending != Pending::Accept by {
                    if k > last {
                        assert(events.take(k) =~= events);
                    }
                }
            }
        } else if is_receiving(pending) {
            if is_receiving(server.pending) {
                let (i, j) = choose|i: int, j: int|
                    i < j && #[trigger] name_received_at(built, before, i)
                        && #[trigger] name_acknowledged_at(built, before, j)
                        && same_connection_since(built, before, i);
                lemma_run_extends(built, events, i);
                lemma_run_extends(built, events, j);
                assert(name_received_at(built, events, i));
                assert(name_acknowledged_at(built, events, j));
            } else {
                let i = choose|i: int| #[trigger]
                    name_received_at(built, before, i) && same_connection_since(
                        built,
                        before,
                        i,
                    );
                lemma_run_extends(built, events, i);
                assert(before =~= events.take(last));
                assert(name_received_at(built, events, i));
                assert(name_acknowledged_at(built, events, last));
            }
        }
    }
}

/// Short reads. If the stream ends while bytes of the file are owed, or
/// before the size prefix has come, the transfer fails with `ShortRead`: the
/// error is kept, no `Ack` is written for the file, and the connection is
/// closed by goodbye-and-close.
pub proof fn lemma_short_read_fails(server: ServerView, event: Event)
    requires
        server.pending == Pending::Chunk || server.pending == Pending::Prefix,
        event == Event::Closed || (event matches Event::Payload(bytes) && bytes@.len() == 0
            && server.pending == Pending::Chunk),
    ensures
        spec_run(server, event) == spec_abort(server, TransferError::ShortRead),
        spec_run(server, event).0.error == Some(TransferError::ShortRead),
        spec_run(server, event).0.pending == Pending::Goodbye,
        spec_run(server, event).1 == reply(Message::Goodbye),
{
}

/// A file is acknowledged only when it is whole: `Ack` is written for a file
/// only after the flush, the flush is asked for only when no byte is owed,
/// and a read of content is asked for only while bytes are owed. No read of
/// content ever takes more than is owed.
pub proof fn lemma_file_acknowledged_when_whole(server: ServerView, event: Event)
    ensures
        spec_run(server, event).0.pending == Pending::FileAck ==> server.pending
            == Pending::Flush && event == Event::Completed,
        spec_run(server, event).0.pending == Pending::Flush ==> spec_run(
            server,
            event,
        ).0.remaining == 0,
        spec_run(server, event).0.pending == Pending::Chunk ==> spec_run(
            server,
            event,
        ).0.remaining > 0,
        spec_run(server, event).1 matches ServerActionView::Append(bytes) ==> {
            &&& bytes.len() <= server.remaining
            &&& server.remaining > 0 ==> bytes.len() > 0
            &&& spec_run(server, event).0.pending == Pending::Append(bytes.len() as u64)
            &&& event matches Event::Payload(chunk)
            &&& bytes == chunk@.take(bytes.len() as int)
        },
{
    if let ServerActionView::Append(bytes) = spec_run(server, event).1 {
        if let Event::Payload(chunk) = event {
            assert(chunk@.take(chunk@.len() as int) =~= chunk@);
        }
    }
}

/// The bytes that a server asks to append to the destination file in the
/// course of a run, in order.
pub open spec fn spec_appended(server: ServerView, events: Seq<Event>) -> Seq<u8>
    decreases events.len(),
{
    if events.len() == 0 {
        Seq::empty()
    } else {
        spec_appended(server, events.drop_last()) + match spec_run(
            spec_runs(server, events.drop_last()),
            events.last(),
        ).1 {
            ServerActionView::Append(bytes) => bytes,
            _ => Seq::empty(),
        }
    }
}

/// The outcomes of receiving a file body of which `remaining` bytes are
/// owed, when nothing fails: read after read delivers bytes, and the write
/// of what is taken of each goes through, until nothing is owed.
pub open spec fn is_body_script(remaining: nat, events: Seq<Event>) -> bool
    decreases events.len(),
{
    if remaining == 0 {
        events.len() == 0
    } else {
        &&& events.len() >= 2
        &&& events[0] matches Event::Payload(chunk)
        &&& chunk@.len() > 0
        &&& events[1] == Event::Written(spec_take_chunk(remaining, chunk@).len() as u64)
        &&& is_body_script(
            (remaining - spec_take_chunk(remaining, chunk@).len()) as nat,
            events.skip(2),
        )
    }
}

/// What the reads of a body script delivered, read by read.
pub open spec fn spec_reads(events: Seq<Event>) -> Seq<Seq<u8>>
    decreases events.len(),
{
    if events.len() < 2 {
        Seq::empty()
    } else {
        seq![
            match events[0] {
                Event::Payload(chunk) => chunk@,
                _ => Seq::empty(),
            },
        ] + spec_reads(events.skip(2))
    }
}

/// A run can be cut in two: the second part goes on where the first ended,
/// and what is appended is what the two parts append.
pub proof fn lemma_runs_split(server: ServerView, first: Seq<Event>, second: Seq<Event>)
    ensures
        spec_runs(server, first + second) == spec_runs(spec_runs(server, first), second),
        spec_appended(server, first + second) == spec_appended(server, first) + spec_appended(
            spec_runs(server, first),
            second,
        ),
    decreases second.len(),
{
    if second.len() == 0 {
        assert(first + second =~= first);
        assert(spec_appended(server, first) + Seq::<u8>::empty() =~= spec_appended(
            server,
            first,
        ));
    } else {
        lemma_runs_split(server, first, second.drop_last());
        assert((first + second).drop_last() =~= first + second.drop_last());
        assert((first + second).last() == second.last());
        let asked = match spec_run(
            spec_runs(spec_runs(server, first), second.drop_last()),
            second.last(),
        ).1 {
            ServerActionView::Append(bytes) => bytes,
            _ => Seq::empty(),
        };
        assert((spec_appended(server, first) + spec_appended(
            spec_runs(server, first),
            second.drop_last(),
        )) + asked =~= spec_appended(server, first) + (spec_appended(
            spec_runs(server, first),
            second.drop_last(),
        ) + asked));
    }
}

/// The body of a file is received by the reads and writes of a body script:
/// at its end nothing is owed and the flush is awaited, and what was appended
/// is what the transfer engine takes of the reads.
proof fn lemma_body_script_runs(server: ServerView, events: Seq<Event>)
    requires
        server.pending == if server.remaining == 0 {
            Pending::Flush
        } else {
            Pending::Chunk
        },
        is_body_script(server.remaining as nat, events),
    ensures
        spec_runs(server, events) == (
            ServerView { pending: Pending::Flush, remaining: 0, ..server }
        ),
        spec_appended(server, events) == spec_accepted(
            server.remaining as nat,
            spec_reads(events),
        ),
        spec_appended(server, events).len() == server.remaining,
    decreases events.len(),
{
    if server.remaining == 0 {
        assert(spec_accepted(0, spec_reads(events)) =~= Seq::<u8>::empty());
    } else {
        reveal_with_fuel(spec_runs, 3);
        reveal_with_fuel(spec_appended, 3);
        let chunk = events[0]->Payload_0@;
        let taken = spec_take_chunk(server.remaining as nat, chunk);
        let head = seq![events[0], events[1]];
        let rest = events.skip(2);
        assert(events =~= head + rest);
        let reading = spec_run(server, events[0]).0;
        let next = spec_run(reading, events[1]).0;
        assert(head.drop_last() =~= seq![events[0]]);
        assert(seq![events[0]].drop_last() =~= Seq::<Event>::empty());
        assert(spec_runs(server, seq![events[0]]) == reading);
        assert(spec_runs(server, head) == next);
        assert(spec_appended(server, seq![events[0]]) =~= taken);
        assert(spec_appended(server, head) =~= taken);
        lemma_body_script_runs(next, rest);
        lemma_runs_split(server, head, rest);
        let reads = spec_reads(events);
        assert(reads.first() == chunk);
        assert(reads.drop_first() =~= spec_reads(rest));
    }
}

/// Transfer integrity, on the server. Let the destination file be created
/// and the body arrive in reads of any sizes, none failing. Then, once the
/// declared number of bytes has come, the server has asked to append exactly
/// the first bytes of the stream, as many as were declared, in order; it
/// owes nothing, and after the flush it acknowledges the file.
pub proof fn lemma_body_received_whole(server: ServerView, events: Seq<Event>)
    requires
        server.pending == Pending::Create,
        is_body_script(server.remaining as nat, events),
    ensures
        ({
            let created = spec_run(server, Event::Completed).0;
            let received = spec_runs(created, events);
            &&& received == (ServerView { pending: Pending::Flush, remaining: 0, ..server })
            &&& spec_reads(events).flatten().len() >= server.remaining
            &&& spec_appended(created, events) == spec_reads(events).flatten().take(
                server.remaining as int,
            )
            &&& spec_appended(created, events).len() == server.remaining
            &&& spec_run(received, Event::Completed) == (
                ServerView { pending: Pending::FileAck, remaining: 0, ..server },
                reply(Message::Ack),
            )
        }),
{
    let created = spec_run(server, Event::Completed).0;
    lemma_body_script_runs(created, events);
    lemma_accepted_is_stream_prefix(server.remaining as nat, spec_reads(events));
    let stream = spec_reads(events).flatten();
    if stream.len() <= server.remaining {
        assert(stream.take(stream.len() as int) =~= stream);
    }
}

/// Path safety. Whatever name arrived, the only file that a server ever
/// asks to create lies directly in its directory, under the base name of
/// the name received, which is a plain name.
pub proof fn lemma_created_inside_directory(server: ServerView, event: Event)
    ensures
        spec_run(server, event).1 matches ServerActionView::Create(path) ==> {
            &&& server.filename matches Some(received)
            &&& spec_base_name(received) matches Some(name)
            &&& is_plain_name(name)
            &&& path == spec_join(server.directory, name)
            &&& spec_base_name(path) == Some(name)
        },
{
    if let ServerActionView::Create(path) = spec_run(server, event).1 {
        lemma_destination_inside_root(server.directory, server.filename.unwrap());
    }
}

/// The path of every file that a consistent server asks to create is UTF-8
/// if its directory is: it can be handed to the filesystem as text.
pub proof fn lemma_created_path_is_utf8(server: ServerView, event: Event)
    requires
        is_consistent(server),
        valid_utf8(server.directory),
    ensures
        spec_run(server, event).1 matches ServerActionView::Create(path) ==> valid_utf8(path),
{
    if let ServerActionView::Create(path) = spec_run(server, event).1 {
        lemma_destination_is_utf8(server.directory, server.filename.unwrap());
    }
}

/// The goodbye retry bound. If every write of `Goodbye` fails, the server
/// writes it again after each failure but the tenth, and then drops the
/// connection with the error of the last attempt and awaits the next.
pub proof fn lemma_goodbye_gives_up(server: ServerView, events: Seq<Event>)
    requires
        events.len() <= MAX_GOODBYE_ATTEMPTS,
        forall|i: int| 0 <= i < events.len() ==> spec_written(#[trigger] events[i], 1) is Err,
    ensures
        ({
            let begun = spec_goodbye(server).0;
            if events.len() < MAX_GOODBYE_ATTEMPTS {
                spec_runs(begun, events) == (ServerView { failures: events.len(), ..begun })
            } else {
                spec_runs(begun, events) == spec_drop(
                    ServerView { failures: (MAX_GOODBYE_ATTEMPTS - 1) as nat, ..begun },
                    Some(spec_written(events.last(), 1)->Err_0),
                ).0
            }
        }),
    decreases events.len(),
{
    if events.len() > 0 {
        lemma_goodbye_gives_up(server, events.drop_last());
    }
}

} // verus!
