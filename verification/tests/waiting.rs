use futures::future::Abortable;
use iroh_rtp::canceller::{
    wait, Canceller, ErrorMessage, WaitAction, WaitError, WaitEvent, WaitOutcome, DEFAULT_TIMEOUT,
};
use iroh_rtp::element::ErrorKind;

fn begin(canceller: &mut Canceller, timeout: u32) -> WaitAction<u8> {
    wait(canceller, WaitEvent::Begin { timeout })
}

fn end(canceller: &mut Canceller, outcome: WaitOutcome<u8>) -> Result<u8, WaitError> {
    match wait(canceller, WaitEvent::Ended(outcome)) {
        WaitAction::Finish(result) => result,
        WaitAction::Run { .. } => panic!("runs on"),
    }
}

#[test]
fn wait_gives_the_value_of_its_future() {
    let mut canceller = Canceller::default();
    assert!(matches!(
        begin(&mut canceller, DEFAULT_TIMEOUT),
        WaitAction::Run { limit: Some(15), .. }
    ));
    assert!(matches!(canceller, Canceller::Handle(_)));
    assert!(matches!(end(&mut canceller, WaitOutcome::Done(4)), Ok(4)));
    assert!(matches!(canceller, Canceller::Idle));
    assert!(matches!(begin(&mut canceller, 0), WaitAction::Run { limit: None, .. }));
}

#[test]
fn wait_reports_that_time_is_up() {
    let mut canceller = Canceller::default();
    let _ = begin(&mut canceller, 1);
    match end(&mut canceller, WaitOutcome::TimedOut("1s".to_string())) {
        Err(WaitError::FutureError(ErrorMessage::ResolvedWithError { elapsed })) => {
            assert_eq!(elapsed, "1s")
        }
        _ => panic!("no report"),
    }
    assert!(matches!(canceller, Canceller::Idle));
}

#[test]
fn only_one_wait_at_a_time() {
    let mut canceller = Canceller::default();
    let _ = begin(&mut canceller, 1);
    assert!(matches!(
        begin(&mut canceller, 1),
        WaitAction::Finish(Err(WaitError::FutureError(ErrorMessage::OldCanceller)))
    ));
    assert!(matches!(canceller, Canceller::Handle(_)));
    canceller.unlock_stop();
    assert!(matches!(canceller, Canceller::Handle(_)));
}

#[test]
fn cancelling_wins_over_the_value() {
    let mut canceller = Canceller::default();
    let _ = begin(&mut canceller, 1);
    canceller.abort();
    assert!(matches!(canceller, Canceller::Cancelled));
    assert!(matches!(
        end(&mut canceller, WaitOutcome::Done(4)),
        Err(WaitError::FutureAborted)
    ));
    assert!(matches!(
        begin(&mut canceller, 1),
        WaitAction::Finish(Err(WaitError::FutureAborted))
    ));
    canceller.unlock_stop();
    assert!(matches!(begin(&mut canceller, 1), WaitAction::Run { .. }));
}

#[test]
fn aborted_future_aborts_the_wait() {
    let mut canceller = Canceller::default();
    let _ = begin(&mut canceller, 1);
    assert!(matches!(
        end(&mut canceller, WaitOutcome::Aborted),
        Err(WaitError::FutureAborted)
    ));
    assert!(matches!(canceller, Canceller::Idle));
}

#[test]
fn cancelling_hands_out_the_handle() {
    let mut canceller = Canceller::default();
    assert!(canceller.cancel().is_none());
    canceller.unlock_stop();
    let _ = begin(&mut canceller, 0);
    assert!(canceller.cancel().is_some());
    assert!(canceller.cancel().is_none());
}

#[test]
fn aborting_reaches_the_future() {
    let mut canceller = Canceller::default();
    let registration = match begin(&mut canceller, 0) {
        WaitAction::Run { registration, .. } => registration,
        WaitAction::Finish(_) => panic!("does not run"),
    };
    let future = Abortable::new(futures::future::pending::<u8>(), registration);
    assert!(!future.is_aborted());
    canceller.abort();
    assert!(future.is_aborted());
    assert!(futures::executor::block_on(future).is_err());
}

#[test]
fn aborting_reaches_the_wait_under_way_and_no_other() {
    let mut first = Canceller::default();
    let mut second = Canceller::default();
    let (WaitAction::Run { registration: one, .. }, WaitAction::Run { registration: two, .. }) =
        (begin(&mut first, 0), begin(&mut second, 0))
    else {
        panic!("does not run")
    };
    let one = Abortable::new(futures::future::pending::<u8>(), one);
    let two = Abortable::new(futures::future::pending::<u8>(), two);
    second.abort();
    assert!(!one.is_aborted());
    assert!(two.is_aborted());
    assert!(matches!(end(&mut second, WaitOutcome::Aborted), Err(WaitError::FutureAborted)));
    assert!(matches!(second, Canceller::Cancelled));
}

#[test]
fn aborted_future_stays_aborted_after_unlocking() {
    let mut canceller = Canceller::default();
    let _ = begin(&mut canceller, 0);
    canceller.abort();
    canceller.unlock_stop();
    assert!(matches!(
        end(&mut canceller, WaitOutcome::Aborted),
        Err(WaitError::FutureAborted)
    ));
}

#[test]
fn wait_errors_have_words() {
    assert_eq!(ErrorMessage::OldCanceller.words(), "Old Canceller should not exist");
    assert_eq!(ErrorMessage::OldCanceller.kind(), ErrorKind::ResourceFailed);
    assert!(ErrorMessage::OldCanceller.cause().is_none());
    let err = ErrorMessage::ResolvedWithError { elapsed: "1s".to_string() };
    assert_eq!(err.words(), "Future resolved with an error ");
    assert_eq!(err.kind(), ErrorKind::ResourceFailed);
    let (text, kind) = err.cause().unwrap();
    assert_eq!(text, "Request timeout, elapsed: 1s");
    assert_eq!(kind, ErrorKind::ResourceRead);
    assert_eq!(WaitError::FutureAborted.words(), "Future aborted");
    assert_eq!(WaitError::FutureError(err).words(), "Future returned an error: ");
}
