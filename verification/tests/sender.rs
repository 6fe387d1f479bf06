use fshare::channel::{Event, Fault};
use fshare::error::TransferError;
use fshare::protocol::{DecodeError, Message};
use fshare::sender::{ClientAction, Sender, Stage, Summary, MAX_GOODBYE_ATTEMPTS};
use fshare::Client;

fn started() -> (Sender, ClientAction) {
    Client::new().send(b"/home/me/note.txt", &Event::Completed)
}

fn drive(events: Vec<Event>) -> (Sender, ClientAction) {
    let (mut sender, mut action) = started();
    for event in events {
        let next = sender.step(&event);
        sender = next.0;
        action = next.1;
    }
    (sender, action)
}

fn up_to_sending() -> Vec<Event> {
    vec![
        Event::Completed,
        Event::Written(1),
        Event::Byte(200),
        Event::Written(8),
        Event::Byte(200),
    ]
}

fn up_to_parting() -> Vec<Event> {
    let mut events = up_to_sending();
    events.extend(vec![
        Event::Length(10),
        Event::Written(8),
        Event::Written(10),
        Event::Byte(200),
        Event::Written(1),
    ]);
    events
}

#[test]
fn goodbye_budget_is_five() {
    assert_eq!(MAX_GOODBYE_ATTEMPTS, 5);
}

#[test]
fn send_begins_by_connecting() {
    let (sender, action) = started();
    assert_eq!(action, ClientAction::Connect);
    assert_eq!(sender.stage(), Stage::Connecting);
    assert_eq!(sender.result(), None);
    assert_eq!(sender.summary(), None);
    assert_eq!(sender.error(), None);
}

#[test]
fn send_is_over_at_once_when_the_path_has_no_base_name() {
    let (sender, action) = Client::new().send(b"dir/..", &Event::Completed);
    assert_eq!(action, ClientAction::Close);
    assert_eq!(sender.stage(), Stage::Finished);
    assert_eq!(sender.result(), Some(Err(TransferError::EmptyFilename)));
    assert_eq!(sender.summary(), Some(Summary::Abandoned));
    assert_eq!(sender.error(), Some(TransferError::EmptyFilename));
}

#[test]
fn send_is_over_at_once_when_the_file_cannot_be_opened() {
    let (sender, action) = Client::new().send(b"note.txt", &Event::Failed(Fault::Io));
    assert_eq!(action, ClientAction::Close);
    assert_eq!(sender.result(), Some(Err(TransferError::IoError)));
    assert_eq!(sender.summary(), Some(Summary::Abandoned));
}

#[test]
fn a_whole_transfer_step_by_step() {
    let (sender, action) = started();
    assert_eq!(action, ClientAction::Connect);

    let (sender, action) = sender.step(&Event::Completed);
    assert_eq!(sender.stage(), Stage::Requesting);
    assert_eq!(action, ClientAction::Send(vec![30]));

    let (sender, action) = sender.step(&Event::Written(1));
    assert_eq!(sender.stage(), Stage::AwaitingReply);
    assert_eq!(action, ClientAction::Receive);

    let (sender, action) = sender.step(&Event::Byte(200));
    assert_eq!(sender.stage(), Stage::Naming);
    assert_eq!(action, ClientAction::Send(b"note.txt".to_vec()));

    let (sender, action) = sender.step(&Event::Written(8));
    assert_eq!(sender.stage(), Stage::AwaitingAccept);
    assert_eq!(action, ClientAction::Receive);

    let (sender, action) = sender.step(&Event::Byte(200));
    assert_eq!(sender.stage(), Stage::Measuring);
    assert_eq!(action, ClientAction::Measure);

    let (sender, action) = sender.step(&Event::Length(10));
    assert_eq!(sender.stage(), Stage::Prefixing);
    assert_eq!(action, ClientAction::Send(vec![0, 0, 0, 0, 0, 0, 0, 10]));

    let (sender, action) = sender.step(&Event::Written(8));
    assert_eq!(sender.stage(), Stage::Streaming);
    assert_eq!(action, ClientAction::Stream);

    let (sender, action) = sender.step(&Event::Written(10));
    assert_eq!(sender.stage(), Stage::AwaitingReceipt);
    assert_eq!(action, ClientAction::Receive);

    let (sender, action) = sender.step(&Event::Byte(200));
    assert_eq!(sender.stage(), Stage::Finishing);
    assert_eq!(action, ClientAction::Send(vec![255]));

    let (sender, action) = sender.step(&Event::Written(1));
    assert_eq!(sender.stage(), Stage::Parting);
    assert_eq!(action, ClientAction::Send(vec![255]));

    let (sender, action) = sender.step(&Event::Written(1));
    assert_eq!(sender.stage(), Stage::AwaitingGoodbye);
    assert_eq!(action, ClientAction::Receive);
    assert_eq!(sender.result(), None);

    let (sender, action) = sender.step(&Event::Byte(255));
    assert_eq!(sender.stage(), Stage::Finished);
    assert_eq!(action, ClientAction::Close);
    assert_eq!(sender.result(), Some(Ok(())));
    assert_eq!(
        sender.summary(),
        Some(Summary::Sent { acknowledged: true })
    );
    assert_eq!(sender.error(), None);
}

#[test]
fn a_failed_connection_ends_the_procedure_without_error_result() {
    let (sender, action) = drive(vec![Event::Failed(Fault::Io)]);
    assert_eq!(action, ClientAction::Close);
    assert_eq!(sender.result(), Some(Ok(())));
    assert_eq!(sender.summary(), Some(Summary::Unreachable));
    assert_eq!(sender.error(), Some(TransferError::IoError));
}

#[test]
fn a_failed_write_of_the_request_abandons() {
    let (sender, action) = drive(vec![Event::Completed, Event::Failed(Fault::Io)]);
    assert_eq!(action, ClientAction::Close);
    assert_eq!(sender.result(), Some(Err(TransferError::IoError)));
    assert_eq!(sender.summary(), Some(Summary::Abandoned));
    assert_eq!(sender.error(), Some(TransferError::IoError));
}

#[test]
fn a_partial_write_of_the_request_abandons() {
    let (sender, _) = drive(vec![Event::Completed, Event::Written(0)]);
    assert_eq!(sender.result(), Some(Err(TransferError::IoError)));
}

#[test]
fn a_reply_other_than_ack_to_the_request_abandons() {
    let (sender, action) = drive(vec![Event::Completed, Event::Written(1), Event::Byte(43)]);
    assert_eq!(action, ClientAction::Close);
    assert_eq!(
        sender.result(),
        Some(Err(TransferError::ProtocolViolation(
            Message::RequestDenied
        )))
    );
    assert_eq!(sender.summary(), Some(Summary::Abandoned));
}

#[test]
fn a_timeout_on_the_reply_to_the_request_abandons() {
    let (sender, _) = drive(vec![
        Event::Completed,
        Event::Written(1),
        Event::Failed(Fault::Timeout),
    ]);
    assert_eq!(sender.result(), Some(Err(TransferError::Timeout)));
}

#[test]
fn an_unknown_byte_in_reply_to_the_request_abandons() {
    let (sender, _) = drive(vec![Event::Completed, Event::Written(1), Event::Byte(77)]);
    assert_eq!(
        sender.result(),
        Some(Err(TransferError::DecodeError(
            DecodeError::UnknownMessage(77)
        )))
    );
}

#[test]
fn a_short_write_of_the_name_abandons() {
    let (sender, action) = drive(vec![
        Event::Completed,
        Event::Written(1),
        Event::Byte(200),
        Event::Written(7),
    ]);
    assert_eq!(action, ClientAction::Close);
    assert_eq!(sender.result(), Some(Err(TransferError::IoError)));
}

#[test]
fn a_reply_other_than_ack_to_the_name_denies_and_says_goodbye() {
    let (sender, action) = drive(vec![
        Event::Completed,
        Event::Written(1),
        Event::Byte(200),
        Event::Written(8),
        Event::Byte(43),
    ]);
    assert_eq!(sender.stage(), Stage::Parting);
    assert_eq!(action, ClientAction::Send(vec![255]));

    let (sender, action) = sender.step(&Event::Written(1));
    assert_eq!(action, ClientAction::Receive);
    let (sender, action) = sender.step(&Event::Byte(255));
    assert_eq!(action, ClientAction::Close);
    assert_eq!(sender.result(), Some(Ok(())));
    assert_eq!(
        sender.summary(),
        Some(Summary::Refused(TransferError::ProtocolViolation(
            Message::RequestDenied
        )))
    );
    assert_eq!(sender.error(), None);
}

#[test]
fn a_timeout_on_the_reply_to_the_name_denies() {
    let (sender, action) = drive(vec![
        Event::Completed,
        Event::Written(1),
        Event::Byte(200),
        Event::Written(8),
        Event::Failed(Fault::Timeout),
    ]);
    assert_eq!(sender.stage(), Stage::Parting);
    assert_eq!(action, ClientAction::Send(vec![255]));
    let (sender, _) = sender.step(&Event::Written(1));
    let (sender, _) = sender.step(&Event::Byte(255));
    assert_eq!(
        sender.summary(),
        Some(Summary::Refused(TransferError::Timeout))
    );
}

#[test]
fn sending_is_never_entered_without_both_acks() {
    let replies = [
        Event::Byte(43),
        Event::Byte(255),
        Event::Byte(30),
        Event::Byte(0),
        Event::Closed,
        Event::Failed(Fault::Timeout),
        Event::Failed(Fault::Io),
    ];
    for reply in replies {
        let (sender, _) = drive(vec![Event::Completed, Event::Written(1), reply]);
        assert_eq!(sender.stage(), Stage::Finished);
    }
    let replies = [
        Event::Byte(43),
        Event::Byte(255),
        Event::Byte(30),
        Event::Byte(0),
        Event::Closed,
        Event::Failed(Fault::Timeout),
        Event::Failed(Fault::Io),
    ];
    for reply in replies {
        let (sender, _) = drive(vec![
            Event::Completed,
            Event::Written(1),
            Event::Byte(200),
            Event::Written(8),
            reply,
        ]);
        assert_eq!(sender.stage(), Stage::Parting);
    }
}

#[test]
fn a_failure_to_measure_the_file_abandons() {
    let mut events = up_to_sending();
    events.push(Event::Failed(Fault::Io));
    let (sender, action) = drive(events);
    assert_eq!(action, ClientAction::Close);
    assert_eq!(sender.result(), Some(Err(TransferError::IoError)));
}

#[test]
fn an_outcome_of_another_operation_is_an_invariant_violation() {
    let mut events = up_to_sending();
    events.push(Event::Completed);
    let (sender, _) = drive(events);
    assert_eq!(
        sender.result(),
        Some(Err(TransferError::ProtocolInvariantViolation))
    );
}

#[test]
fn a_short_write_of_the_prefix_abandons() {
    let mut events = up_to_sending();
    events.extend(vec![Event::Length(10), Event::Written(4)]);
    let (sender, _) = drive(events);
    assert_eq!(sender.result(), Some(Err(TransferError::IoError)));
}

#[test]
fn a_copy_that_is_not_the_declared_size_abandons() {
    let mut events = up_to_sending();
    events.extend(vec![Event::Length(10), Event::Written(8), Event::Written(9)]);
    let (sender, _) = drive(events);
    assert_eq!(sender.result(), Some(Err(TransferError::IoError)));
    assert_eq!(sender.summary(), Some(Summary::Abandoned));
}

#[test]
fn an_empty_file_is_streamed_like_any_other() {
    let mut events = up_to_sending();
    events.push(Event::Length(0));
    let (sender, action) = drive(events);
    assert_eq!(action, ClientAction::Send(vec![0; 8]));
    let (sender, action) = sender.step(&Event::Written(8));
    assert_eq!(action, ClientAction::Stream);
    let (sender, action) = sender.step(&Event::Written(0));
    assert_eq!(action, ClientAction::Receive);
    assert_eq!(sender.stage(), Stage::AwaitingReceipt);
}

#[test]
fn the_final_ack_is_informational() {
    for reply in [
        Event::Byte(43),
        Event::Failed(Fault::Timeout),
        Event::Closed,
        Event::Byte(1),
    ] {
        let mut events = up_to_sending();
        events.extend(vec![
            Event::Length(10),
            Event::Written(8),
            Event::Written(10),
            reply,
        ]);
        let (sender, action) = drive(events);
        assert_eq!(sender.stage(), Stage::Finishing);
        assert_eq!(action, ClientAction::Send(vec![255]));
        let (sender, _) = sender.step(&Event::Written(1));
        let (sender, _) = sender.step(&Event::Written(1));
        let (sender, _) = sender.step(&Event::Byte(255));
        assert_eq!(sender.result(), Some(Ok(())));
        assert_eq!(
            sender.summary(),
            Some(Summary::Sent {
                acknowledged: false
            })
        );
    }
}

#[test]
fn a_failed_finish_ends_the_procedure_with_the_error_carried() {
    let mut events = up_to_sending();
    events.extend(vec![
        Event::Length(10),
        Event::Written(8),
        Event::Written(10),
        Event::Byte(200),
        Event::Failed(Fault::Io),
    ]);
    let (sender, action) = drive(events);
    assert_eq!(action, ClientAction::Close);
    assert_eq!(sender.result(), Some(Ok(())));
    assert_eq!(
        sender.summary(),
        Some(Summary::Sent { acknowledged: true })
    );
    assert_eq!(sender.error(), Some(TransferError::IoError));
}

#[test]
fn goodbye_gives_up_after_exactly_five_failed_writes() {
    let (mut sender, mut action) = drive(up_to_parting());
    assert_eq!(sender.stage(), Stage::Parting);
    for _ in 0..4 {
        assert_eq!(action, ClientAction::Send(vec![255]));
        let next = sender.step(&Event::Failed(Fault::Io));
        sender = next.0;
        action = next.1;
        assert_eq!(sender.stage(), Stage::Parting);
        assert_eq!(sender.result(), None);
    }
    assert_eq!(action, ClientAction::Send(vec![255]));
    let (sender, action) = sender.step(&Event::Written(0));
    assert_eq!(action, ClientAction::Close);
    assert_eq!(sender.stage(), Stage::Finished);
    assert_eq!(sender.result(), Some(Ok(())));
    assert_eq!(sender.error(), Some(TransferError::IoError));
    assert_eq!(
        sender.summary(),
        Some(Summary::Sent { acknowledged: true })
    );
}

#[test]
fn goodbye_carries_the_error_of_the_last_attempt() {
    let (sender, _) = Client::new()
        .connect(&Event::Completed)
        .unwrap()
        .goodbye();
    let (sender, _) = sender.step(&Event::Failed(Fault::Io));
    let (sender, _) = sender.step(&Event::Failed(Fault::Io));
    let (sender, _) = sender.step(&Event::Failed(Fault::Io));
    let (sender, _) = sender.step(&Event::Failed(Fault::Io));
    let (sender, action) = sender.step(&Event::Byte(3));
    assert_eq!(action, ClientAction::Close);
    assert_eq!(
        sender.error(),
        Some(TransferError::ProtocolInvariantViolation)
    );
    assert_eq!(sender.summary(), Some(Summary::Closed));
}

#[test]
fn goodbye_counts_only_failed_writes() {
    let (sender, action) = Client::new()
        .connect(&Event::Completed)
        .unwrap()
        .goodbye();
    assert_eq!(action, ClientAction::Send(vec![255]));
    let mut sender = sender;
    for _ in 0..20 {
        let next = sender.step(&Event::Written(1));
        assert_eq!(next.1, ClientAction::Receive);
        let next = next.0.step(&Event::Failed(Fault::Timeout));
        assert_eq!(next.1, ClientAction::Send(vec![255]));
        sender = next.0;
        assert_eq!(sender.stage(), Stage::Parting);
    }
    for _ in 0..4 {
        let next = sender.step(&Event::Failed(Fault::Io));
        assert_eq!(next.1, ClientAction::Send(vec![255]));
        sender = next.0;
    }
    let (sender, action) = sender.step(&Event::Failed(Fault::Io));
    assert_eq!(action, ClientAction::Close);
    assert_eq!(sender.error(), Some(TransferError::IoError));
}

#[test]
fn a_reply_other_than_goodbye_counts_as_no_reply() {
    let (sender, _) = Client::new()
        .connect(&Event::Completed)
        .unwrap()
        .goodbye();
    let (sender, _) = sender.step(&Event::Written(1));
    let (sender, action) = sender.step(&Event::Byte(200));
    assert_eq!(sender.stage(), Stage::Parting);
    assert_eq!(action, ClientAction::Send(vec![255]));
    let (sender, _) = sender.step(&Event::Written(1));
    let (sender, action) = sender.step(&Event::Byte(255));
    assert_eq!(action, ClientAction::Close);
    assert_eq!(sender.result(), Some(Ok(())));
    assert_eq!(sender.summary(), Some(Summary::Closed));
    assert_eq!(sender.error(), None);
}

#[test]
fn once_over_the_procedure_stays_over() {
    let (sender, _) = drive(vec![Event::Failed(Fault::Io)]);
    let (sender, action) = sender.step(&Event::Byte(200));
    assert_eq!(action, ClientAction::Close);
    assert_eq!(sender.stage(), Stage::Finished);
    assert_eq!(sender.summary(), Some(Summary::Unreachable));
    let (sender, action) = sender.step(&Event::Completed);
    assert_eq!(action, ClientAction::Close);
    assert_eq!(sender.error(), Some(TransferError::IoError));
}
