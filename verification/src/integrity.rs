//! Transfer integrity across both machines: what the sender puts on the
//! wire for a file is what the server writes to the destination file.
use crate::channel::Event;
use crate::path::{
    lemma_base_name_is_segment, lemma_base_name_is_utf8, lemma_base_name_of_plain,
    lemma_destination_inside_root, spec_base_name, spec_destination, spec_join,
};
use crate::protocol::Message;
use crate::sender::model::{spec_step, ClientActionView, SenderView};
use crate::server::laws::{is_body_script, lemma_body_received_whole, spec_appended, spec_reads};
use crate::server::model::{reply, spec_run, spec_runs, ServerActionView, ServerView};
use crate::server::Pending;
use crate::transfer::{lemma_prefix_declares_size, spec_size_prefix};
use vstd::prelude::*;
use vstd::utf8::valid_utf8;

verus! {

/// The name survives the crossing. The sender offers the base name of the
/// path it was given. If that path is UTF-8, so is the name, and the server
/// keeps it; and the server then writes the file under exactly that name,
/// directly in its directory.
pub proof fn lemma_name_survives(path: Seq<u8>, directory: Seq<u8>)
    requires
        valid_utf8(path),
    ensures
        spec_base_name(path) matches Some(name) ==> {
            &&& valid_utf8(name)
            &&& spec_base_name(name) == Some(name)
            &&& spec_destination(directory, name) == Some(spec_join(directory, name))
        },
{
    lemma_base_name_is_utf8(path);
    lemma_base_name_is_segment(path);
    if let Some(name) = spec_base_name(path) {
        lemma_base_name_of_plain(name);
    }
}

/// What the sender streams is framed by its size. Once the loaded file has
/// been measured, the sender asks to write the prefix that declares the size
/// measured, then to copy the content; and it goes on to await the receipt
/// exactly if the prefix was written in full and as many bytes were copied
/// as the prefix declares.
pub proof fn lemma_stream_is_framed(size: u64, prefixed: Event, copied: Event)
    ensures
        ({
            let measured = spec_step(SenderView::Measuring, Event::Length(size));
            let prefixing = spec_step(measured.0, prefixed);
            let streaming = spec_step(prefixing.0, copied);
            &&& measured == (
                SenderView::Prefixing(size),
                ClientActionView::Send(spec_size_prefix(size)),
            )
            &&& prefixing.1 == ClientActionView::Stream <==> prefixed == Event::Written(8)
            &&& streaming.0 == SenderView::AwaitingReceipt <==> prefixed == Event::Written(8)
                && copied == Event::Written(size)
        }),
{
}

/// A file arrives whole. Let the sender measure a file of any content (empty
/// too) and write the prefix it then asks to write. Let the server, which
/// has acknowledged the file's name, read that prefix, create the
/// destination file, and receive the stream behind the prefix in reads of
/// any sizes, none failing: the content first, then whatever the sender
/// writes next. Then the server creates the file in its directory under the
/// base name of the name received, asks to append to it the content and
/// nothing else, byte for byte and in order, and acknowledges the file once
/// it is flushed.
pub proof fn lemma_file_arrives_whole(
    content: Seq<u8>,
    following: Seq<u8>,
    server: ServerView,
    prefix: Vec<u8>,
    events: Seq<Event>,
)
    requires
        content.len() <= u64::MAX,
        spec_step(SenderView::Measuring, Event::Length(content.len() as u64)).1
            == ClientActionView::Send(prefix@),
        server.pending == Pending::Prefix,
        server.filename matches Some(name) && spec_base_name(name) is Some,
        is_body_script(content.len(), events),
        spec_reads(events).flatten() == content + following,
    ensures
        ({
            let name = spec_base_name(server.filename->0)->0;
            let declared = spec_run(server, Event::Payload(prefix));
            let created = spec_run(declared.0, Event::Completed).0;
            let received = spec_runs(created, events);
            &&& declared == (
                ServerView {
                    remaining: content.len() as u64,
                    pending: Pending::Create,
                    ..server
                },
                ServerActionView::Create(spec_join(server.directory, name)),
            )
            &&& spec_appended(created, events) == content
            &&& received == (ServerView { pending: Pending::Flush, remaining: 0, ..server })
            &&& spec_run(received, Event::Completed).1 == reply(Message::Ack)
        }),
{
    let size = content.len() as u64;
    lemma_prefix_declares_size(size);
    lemma_destination_inside_root(server.directory, server.filename->0);
    let declared = spec_run(server, Event::Payload(prefix));
    assert(declared.0.remaining == size);
    lemma_body_received_whole(declared.0, events);
    assert((content + following).take(content.len() as int) =~= content);
}

} // verus!
