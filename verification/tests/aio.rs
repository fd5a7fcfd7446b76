use anng::aio::{
    context_try_receive_outcome, receive_finished, send_finished, try_receive_outcome, AioSlot, ImplicationOnMessage, Recovery,
};
use anng::sys::{nng_err, NNG_EAGAIN, NNG_ECANCELED, NNG_ECLOSED, NNG_ENOTSUP, NNG_ESTATE, NNG_OK};
use anng::{AioError, Message, NngError};

fn msg(bytes: &[u8]) -> Message {
    Message::from(bytes)
}

#[test]
fn failed_send_returns_the_message() {
    let mut slot = AioSlot::new();
    assert!(slot.set_message(msg(b"payload")).is_none());
    match send_finished(&mut slot, nng_err(NNG_ECLOSED)) {
        Err((e, m)) => {
            assert_eq!(e, AioError::Operation(NngError::NngError(nng_err(NNG_ECLOSED))));
            assert_eq!(m.as_slice(), b"payload");
        }
        Ok(()) => panic!("the send failed"),
    }
    assert!(slot.take_message().is_none());
}

#[test]
fn successful_send_gives_the_message_away() {
    let mut slot = AioSlot::new();
    slot.set_message(msg(b"payload"));
    assert!(send_finished(&mut slot, nng_err(NNG_OK)).is_ok());
    assert!(slot.take_message().is_none());
}

#[test]
fn setting_again_returns_the_earlier_message() {
    let mut slot = AioSlot::new();
    slot.set_message(msg(b"first"));
    let prev = slot.set_message(msg(b"second")).unwrap();
    assert_eq!(prev.as_slice(), b"first");
    assert_eq!(slot.take_message().unwrap().as_slice(), b"second");
}

#[test]
fn receive_takes_the_delivered_message() {
    let mut slot = AioSlot::new();
    slot.deliver(msg(b"incoming"));
    let m = receive_finished(&mut slot, nng_err(NNG_OK)).unwrap();
    assert_eq!(m.as_slice(), b"incoming");
    assert!(slot.take_message().is_none());
}

#[test]
fn failed_receive_reports_the_error() {
    let mut slot = AioSlot::new();
    assert!(matches!(receive_finished(&mut slot, nng_err(NNG_ECANCELED)), Err(AioError::Cancelled)));
}

#[test]
fn cancelled_receive_keeps_its_message_for_recovery() {
    let mut slot = AioSlot::new();
    slot.deliver(msg(b"late"));
    assert!(slot.cancel(nng_err(NNG_OK)).is_none());
    let mut recovery = Recovery::new();
    recovery.recover(&mut slot);
    assert!(slot.take_message().is_none());
    assert_eq!(recovery.take().unwrap().as_slice(), b"late");
    assert!(recovery.take().is_none());
}

#[test]
fn cancelled_send_empties_the_slot() {
    let mut slot = AioSlot::new();
    slot.set_message(msg(b"out"));
    let dropped = slot.cancel(nng_err(NNG_ECANCELED)).unwrap();
    assert_eq!(dropped.as_slice(), b"out");
    assert!(slot.take_message().is_none());

    let mut slot = AioSlot::new();
    slot.set_message(msg(b"out"));
    assert!(slot.cancel(nng_err(NNG_OK)).is_none());
    assert!(slot.take_message().is_none());
}

#[test]
fn finish_of_a_receive_keeps_the_message() {
    let mut slot = AioSlot::new();
    slot.deliver(msg(b"kept"));
    assert!(slot.finish(nng_err(NNG_OK), ImplicationOnMessage::Received).is_ok());
    assert_eq!(slot.take_message().unwrap().as_slice(), b"kept");
}

#[test]
fn try_receive_outcomes() {
    let r = try_receive_outcome(NNG_OK, Some(msg(b"now")));
    assert_eq!(r.unwrap().unwrap().as_slice(), b"now");
    assert!(matches!(try_receive_outcome(NNG_EAGAIN, None), Ok(None)));
    assert!(matches!(
        try_receive_outcome(NNG_ESTATE, None),
        Err(AioError::Operation(NngError::NngError(nng_err(NNG_ESTATE))))
    ));
    assert!(matches!(
        try_receive_outcome(NNG_ENOTSUP, None),
        Err(AioError::Operation(NngError::NngError(nng_err(NNG_ENOTSUP))))
    ));
    assert!(matches!(try_receive_outcome(5, None), Err(AioError::TimedOut)));
}

#[test]
fn context_try_receive_keeps_time_outs_as_operation_errors() {
    let r = context_try_receive_outcome(NNG_OK, Some(msg(b"now")));
    assert_eq!(r.unwrap().unwrap().as_slice(), b"now");
    assert!(matches!(context_try_receive_outcome(NNG_EAGAIN, None), Ok(None)));
    assert!(matches!(
        context_try_receive_outcome(5, None),
        Err(AioError::Operation(NngError::NngError(nng_err(5))))
    ));
    assert!(matches!(
        context_try_receive_outcome(NNG_ESTATE, None),
        Err(AioError::Operation(NngError::NngError(nng_err(NNG_ESTATE))))
    ));
}
