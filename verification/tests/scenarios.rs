use std::sync::mpsc::{channel, Receiver, TryRecvError};

use winservice::arguments::decode_arguments;
use winservice::control::{control_handler_ex, NO_ERROR};
use winservice::service_status::{ServiceError, SERVICE_STATUS};
use winservice::windows::{CONTROL_CODE, CURRENT_SERVICE_STATUS, SERVICE_STATUS_HANDLE};

/// Runs one service the way a dispatcher does, with the list `sent` in the
/// place of the manager: whatever is due for publication is appended to it.
fn run(
    registration: usize,
    native: &Vec<Vec<u8>>,
    end: Receiver<()>,
    service_main: fn(Vec<String>, Receiver<()>) -> u32,
    sent: &mut Vec<(CURRENT_SERVICE_STATUS, u32)>,
) -> Result<(), ServiceError> {
    let (mut status, due) =
        SERVICE_STATUS::initialize(SERVICE_STATUS_HANDLE::from_raw(registration))?;
    sent.extend(due.iter().map(|record| (record.current_state(), record.exit_code())));
    let code = service_main(decode_arguments(native), end);
    let due = status.exit_with(code);
    sent.extend(due.iter().map(|record| (record.current_state(), record.exit_code())));
    Ok(())
}

fn returns_at_once(_args: Vec<String>, _end: Receiver<()>) -> u32 {
    0
}

fn polls_until_signalled(_args: Vec<String>, end: Receiver<()>) -> u32 {
    let mut polls = 0;
    loop {
        polls += 1;
        if end.try_recv().is_ok() {
            break;
        }
        if polls > 1 {
            return 1;
        }
    }
    0
}

fn counts_its_arguments(args: Vec<String>, _end: Receiver<()>) -> u32 {
    args.len() as u32
}

fn must_not_run(_args: Vec<String>, _end: Receiver<()>) -> u32 {
    panic!("the service ran without a registration")
}

#[test]
fn a_service_that_returns_at_once_goes_through_all_four_states() {
    let (_tx, rx) = channel();
    let mut sent = Vec::new();
    let outcome = run(0x51, &vec![b"demo".to_vec()], rx, returns_at_once, &mut sent);
    assert_eq!(outcome, Ok(()));
    assert_eq!(
        sent,
        vec![
            (CURRENT_SERVICE_STATUS::SERVICE_START_PENDING, 0),
            (CURRENT_SERVICE_STATUS::SERVICE_RUNNING, 0),
            (CURRENT_SERVICE_STATUS::SERVICE_STOP_PENDING, 0),
            (CURRENT_SERVICE_STATUS::SERVICE_STOPPED, 0),
        ]
    );
}

#[test]
fn a_stop_request_reaches_the_polling_service() {
    let (tx, rx) = channel();
    assert_eq!(control_handler_ex(CONTROL_CODE::SERVICE_CONTROL_STOP.bits(), 0, &tx), NO_ERROR);
    let mut sent = Vec::new();
    let outcome = run(0x51, &Vec::new(), rx, polls_until_signalled, &mut sent);
    assert_eq!(outcome, Ok(()));
    assert_eq!(sent.len(), 4);
    assert_eq!(sent[3], (CURRENT_SERVICE_STATUS::SERVICE_STOPPED, 0));
}

#[test]
fn an_unrelated_request_changes_nothing() {
    let (tx, rx) = channel();
    let (status, _) = SERVICE_STATUS::initialize(SERVICE_STATUS_HANDLE::from_raw(0x51)).unwrap();
    let before = status;
    let answer = control_handler_ex(CONTROL_CODE::SERVICE_CONTROL_PARAMCHANGE.bits(), 0, &tx);
    assert_eq!(answer, NO_ERROR);
    assert_eq!(rx.try_recv(), Err(TryRecvError::Empty));
    assert_eq!(status, before);
    assert_eq!(status.current_state(), CURRENT_SERVICE_STATUS::SERVICE_RUNNING);
}

#[test]
fn a_refused_registration_publishes_nothing_and_runs_nothing() {
    let (_tx, rx) = channel();
    let mut sent = Vec::new();
    let outcome = run(0, &vec![b"demo".to_vec()], rx, must_not_run, &mut sent);
    assert_eq!(outcome, Err(ServiceError::RegistrationFailed));
    assert!(sent.is_empty());
}

#[test]
fn the_exit_code_of_the_service_is_the_one_reported() {
    let (_tx, rx) = channel();
    let native = vec![b"a".to_vec(), vec![0xff], b"c".to_vec()];
    let mut sent = Vec::new();
    let outcome = run(0x51, &native, rx, counts_its_arguments, &mut sent);
    assert_eq!(outcome, Ok(()));
    assert_eq!(
        sent,
        vec![
            (CURRENT_SERVICE_STATUS::SERVICE_START_PENDING, 0),
            (CURRENT_SERVICE_STATUS::SERVICE_RUNNING, 0),
            (CURRENT_SERVICE_STATUS::SERVICE_STOP_PENDING, 0),
            (CURRENT_SERVICE_STATUS::SERVICE_STOPPED, 3),
        ]
    );
}
