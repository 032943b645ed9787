use std::sync::mpsc::{channel, TryRecvError};

use winservice::control::{control_handler_ex, relay_control, ControlOutcome, NO_ERROR};
use winservice::windows::CONTROL_CODE;

const EVERY_CODE: [CONTROL_CODE; 10] = [
    CONTROL_CODE::SERVICE_CONTROL_STOP,
    CONTROL_CODE::SERVICE_CONTROL_PAUSE,
    CONTROL_CODE::SERVICE_CONTROL_CONTINUE,
    CONTROL_CODE::SERVICE_CONTROL_INTERROGATE,
    CONTROL_CODE::SERVICE_CONTROL_SHUTDOWN,
    CONTROL_CODE::SERVICE_CONTROL_PARAMCHANGE,
    CONTROL_CODE::SERVICE_CONTROL_NETBINDADD,
    CONTROL_CODE::SERVICE_CONTROL_NETBINDREMOVE,
    CONTROL_CODE::SERVICE_CONTROL_NETBINDENABLE,
    CONTROL_CODE::SERVICE_CONTROL_NETBINDDISABLE,
];

#[test]
fn stop_is_relayed_as_one_signal() {
    let (tx, rx) = channel();
    let outcome = relay_control(CONTROL_CODE::SERVICE_CONTROL_STOP.bits(), &tx);
    assert_eq!(outcome, ControlOutcome::Signalled);
    assert_eq!(rx.try_recv(), Ok(()));
    assert_eq!(rx.try_recv(), Err(TryRecvError::Empty));
}

#[test]
fn shutdown_is_relayed_as_one_signal() {
    let (tx, rx) = channel();
    let outcome = relay_control(CONTROL_CODE::SERVICE_CONTROL_SHUTDOWN.bits(), &tx);
    assert_eq!(outcome, ControlOutcome::Signalled);
    assert_eq!(rx.try_recv(), Ok(()));
    assert_eq!(rx.try_recv(), Err(TryRecvError::Empty));
}

#[test]
fn every_other_request_is_ignored() {
    for code in EVERY_CODE {
        let (tx, rx) = channel();
        let outcome = relay_control(code.bits(), &tx);
        let stop = code == CONTROL_CODE::SERVICE_CONTROL_STOP
            || code == CONTROL_CODE::SERVICE_CONTROL_SHUTDOWN;
        assert_eq!(outcome == ControlOutcome::Ignored, !stop);
        assert_eq!(rx.try_recv().is_ok(), stop);
    }
}

#[test]
fn values_that_name_no_request_are_ignored() {
    let (tx, rx) = channel();
    for control in [0, 0x0B, 0x0E, 0x80, 0xFF, 0x101, u32::MAX] {
        assert_eq!(relay_control(control, &tx), ControlOutcome::Ignored);
        assert_eq!(control_handler_ex(control, 0, &tx), NO_ERROR);
    }
    assert_eq!(rx.try_recv(), Err(TryRecvError::Empty));
}

#[test]
fn a_signal_without_a_receiver_is_dropped_quietly() {
    let (tx, rx) = channel();
    drop(rx);
    assert_eq!(
        relay_control(CONTROL_CODE::SERVICE_CONTROL_STOP.bits(), &tx),
        ControlOutcome::ReceiverGone
    );
    assert_eq!(
        relay_control(CONTROL_CODE::SERVICE_CONTROL_SHUTDOWN.bits(), &tx),
        ControlOutcome::ReceiverGone
    );
    assert_eq!(
        relay_control(CONTROL_CODE::SERVICE_CONTROL_PAUSE.bits(), &tx),
        ControlOutcome::Ignored
    );
    assert_eq!(control_handler_ex(CONTROL_CODE::SERVICE_CONTROL_STOP.bits(), 0, &tx), NO_ERROR);
}

#[test]
fn the_handler_always_answers_no_error() {
    let (tx, rx) = channel();
    for code in EVERY_CODE {
        for event_type in [0, 1, u32::MAX] {
            assert_eq!(control_handler_ex(code.bits(), event_type, &tx), 0);
        }
    }
    let mut signals = 0;
    while rx.try_recv().is_ok() {
        signals += 1;
    }
    assert_eq!(signals, 6);
}

#[test]
fn every_sender_of_the_channel_reaches_the_receiver() {
    let (tx, rx) = channel();
    let other = tx.clone();
    assert_eq!(control_handler_ex(CONTROL_CODE::SERVICE_CONTROL_STOP.bits(), 0, &tx), 0);
    assert_eq!(control_handler_ex(CONTROL_CODE::SERVICE_CONTROL_SHUTDOWN.bits(), 0, &other), 0);
    assert_eq!(rx.try_recv(), Ok(()));
    assert_eq!(rx.try_recv(), Ok(()));
    assert_eq!(rx.try_recv(), Err(TryRecvError::Empty));
}
