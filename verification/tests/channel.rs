use fshare::channel::{
    completed, fault_to_error, receive_control, send_control, written, Event, Fault,
    READ_TIMEOUT_SECS,
};
use fshare::error::TransferError;
use fshare::protocol::{DecodeError, Message};

#[test]
fn read_deadline_is_five_seconds() {
    assert_eq!(READ_TIMEOUT_SECS, 5);
}

#[test]
fn send_control_is_the_one_byte_code() {
    assert_eq!(send_control(Message::FileTransferRequest), vec![30]);
    assert_eq!(send_control(Message::RequestDenied), vec![43]);
    assert_eq!(send_control(Message::Ack), vec![200]);
    assert_eq!(send_control(Message::Goodbye), vec![255]);
}

#[test]
fn receive_control_decodes_the_byte() {
    assert_eq!(receive_control(&Event::Byte(200)), Ok(Message::Ack));
    assert_eq!(receive_control(&Event::Byte(255)), Ok(Message::Goodbye));
    assert_eq!(
        receive_control(&Event::Byte(30)),
        Ok(Message::FileTransferRequest)
    );
    assert_eq!(
        receive_control(&Event::Byte(43)),
        Ok(Message::RequestDenied)
    );
}

#[test]
fn receive_control_fails_with_decode_error_on_an_unknown_byte() {
    assert_eq!(
        receive_control(&Event::Byte(7)),
        Err(TransferError::DecodeError(DecodeError::UnknownMessage(7)))
    );
    assert_eq!(
        receive_control(&Event::Byte(0)),
        Err(TransferError::DecodeError(DecodeError::UnknownMessage(0)))
    );
}

#[test]
fn receive_control_fails_with_timeout_when_the_deadline_passed() {
    assert_eq!(
        receive_control(&Event::Failed(Fault::Timeout)),
        Err(TransferError::Timeout)
    );
}

#[test]
fn receive_control_fails_with_io_error_on_a_failed_or_closed_stream() {
    assert_eq!(
        receive_control(&Event::Failed(Fault::Io)),
        Err(TransferError::IoError)
    );
    assert_eq!(receive_control(&Event::Closed), Err(TransferError::IoError));
}

#[test]
fn receive_control_refuses_the_outcome_of_another_operation() {
    assert_eq!(
        receive_control(&Event::Written(1)),
        Err(TransferError::ProtocolInvariantViolation)
    );
    assert_eq!(
        receive_control(&Event::Completed),
        Err(TransferError::ProtocolInvariantViolation)
    );
    assert_eq!(
        receive_control(&Event::Payload(vec![200])),
        Err(TransferError::ProtocolInvariantViolation)
    );
    assert_eq!(
        receive_control(&Event::Length(1)),
        Err(TransferError::ProtocolInvariantViolation)
    );
}

#[test]
fn written_succeeds_only_on_a_full_write() {
    assert_eq!(written(&Event::Written(1), 1), Ok(()));
    assert_eq!(written(&Event::Written(8), 8), Ok(()));
    assert_eq!(written(&Event::Written(0), 0), Ok(()));
}

#[test]
fn written_fails_with_io_error_on_a_partial_write() {
    assert_eq!(written(&Event::Written(0), 1), Err(TransferError::IoError));
    assert_eq!(written(&Event::Written(7), 8), Err(TransferError::IoError));
    assert_eq!(written(&Event::Written(9), 8), Err(TransferError::IoError));
}

#[test]
fn written_fails_with_io_error_on_a_failed_write() {
    assert_eq!(
        written(&Event::Failed(Fault::Io), 1),
        Err(TransferError::IoError)
    );
    assert_eq!(
        written(&Event::Failed(Fault::Timeout), 1),
        Err(TransferError::IoError)
    );
}

#[test]
fn written_refuses_the_outcome_of_another_operation() {
    assert_eq!(
        written(&Event::Byte(1), 1),
        Err(TransferError::ProtocolInvariantViolation)
    );
    assert_eq!(
        written(&Event::Completed, 1),
        Err(TransferError::ProtocolInvariantViolation)
    );
    assert_eq!(
        written(&Event::Closed, 1),
        Err(TransferError::ProtocolInvariantViolation)
    );
}

#[test]
fn completed_reads_success_and_faults() {
    assert_eq!(completed(&Event::Completed), Ok(()));
    assert_eq!(
        completed(&Event::Failed(Fault::Io)),
        Err(TransferError::IoError)
    );
    assert_eq!(
        completed(&Event::Failed(Fault::Timeout)),
        Err(TransferError::Timeout)
    );
    assert_eq!(
        completed(&Event::Byte(200)),
        Err(TransferError::ProtocolInvariantViolation)
    );
}

#[test]
fn fault_to_error_maps_each_fault() {
    assert_eq!(fault_to_error(Fault::Io), TransferError::IoError);
    assert_eq!(fault_to_error(Fault::Timeout), TransferError::Timeout);
}
