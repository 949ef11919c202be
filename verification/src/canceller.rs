//! Waiting for a future that another thread may cancel.

use crate::element::ErrorKind;
use futures::future::{AbortHandle, AbortRegistration};
use vstd::prelude::*;

verus! {

/// The end of an abortable future by which it is aborted.
#[verifier::external_type_specification]
#[verifier::external_body]
pub struct ExAbortHandle(AbortHandle);

/// The end of an abortable future that the future is built with.
#[verifier::external_type_specification]
#[verifier::external_body]
pub struct ExAbortRegistration(AbortRegistration);

/// `AbortHandle::new_pair`: the two ends of a new abortable future. `paired` is
/// what a call of it makes known; nothing else is stated.
pub assume_specification[ AbortHandle::new_pair ]() -> (pair: (AbortHandle, AbortRegistration))
;

/// `AbortHandle::abort`: asks the future to end. `asked_to_abort` is what a call
/// of it makes known. The request is kept in memory that the handle shares with
/// the future, of which nothing is stated.
pub assume_specification[ AbortHandle::abort ](handle: &AbortHandle)
;

/// The time limit of a wait that is given none, in seconds.
pub const DEFAULT_TIMEOUT: u32 = 15;

/// Whether a future is waited for, and whether waiting was cancelled.
pub enum Canceller {
    /// Nothing is waited for.
    Idle,
    /// A future is waited for; this aborts it.
    Handle(AbortHandle),
    /// Waiting was cancelled.
    Cancelled,
}

/// What a wait that failed reports.
pub enum ErrorMessage {
    /// Another wait is under way.
    OldCanceller,
    /// The future has resolved with an error: its time was up.
    ResolvedWithError { elapsed: String },
}

impl ErrorMessage {
    /// The words of the report, before those of its cause, if it has one.
    pub fn words(&self) -> (words: &'static str)
        ensures
            words@ == match self {
                ErrorMessage::OldCanceller => "Old Canceller should not exist"@,
                ErrorMessage::ResolvedWithError { .. } => "Future resolved with an error "@,
            },
    {
        match self {
            ErrorMessage::OldCanceller => "Old Canceller should not exist",
            ErrorMessage::ResolvedWithError { .. } => "Future resolved with an error ",
        }
    }

    /// What the report is filed under.
    pub fn kind(&self) -> (kind: ErrorKind)
        ensures
            kind == ErrorKind::ResourceFailed,
    {
        ErrorKind::ResourceFailed
    }

    /// The error that the future has resolved with: its words, and what it is
    /// filed under.
    pub fn cause(&self) -> (cause: Option<(String, ErrorKind)>)
        ensures
            self is OldCanceller ==> cause is None,
            self matches ErrorMessage::ResolvedWithError { elapsed } ==> (cause matches Some(
                (text, kind),
            ) && text@ == "Request timeout, elapsed: "@ + elapsed@ && kind
                == ErrorKind::ResourceRead),
    {
        match self {
            ErrorMessage::OldCanceller => None,
            ErrorMessage::ResolvedWithError { elapsed } => {
                let mut text = "Request timeout, elapsed: ".to_owned();
                text.append(elapsed.as_str());
                Some((text, ErrorKind::ResourceRead))
            },
        }
    }
}

/// Why a wait has given no result.
pub enum WaitError {
    FutureAborted,
    FutureError(ErrorMessage),
}

impl WaitError {
    /// The words of the report, before those of the message, if there is one.
    pub fn words(&self) -> (words: &'static str)
        ensures
            words@ == match self {
                WaitError::FutureAborted => "Future aborted"@,
                WaitError::FutureError(_) => "Future returned an error: "@,
            },
    {
        match self {
            WaitError::FutureAborted => "Future aborted",
            WaitError::FutureError(_) => "Future returned an error: ",
        }
    }
}

/// How an abortable future with a time limit has ended.
pub enum WaitOutcome<T> {
    /// With its value.
    Done(T),
    /// Its time was up, in the words of the timer.
    TimedOut(String),
    /// It was aborted.
    Aborted,
}

/// What has happened to a wait.
pub enum WaitEvent<T> {
    /// It is to begin, with a time limit in seconds, zero standing for none.
    Begin { timeout: u32 },
    /// Its future has ended.
    Ended(WaitOutcome<T>),
}

/// What a wait does next.
pub enum WaitAction<T> {
    /// Run the future, abortable by the registration and with the limit in
    /// seconds, if there is one.
    Run { registration: AbortRegistration, limit: Option<u64> },
    /// End.
    Finish(Result<T, WaitError>),
}

/// The two ends are a possible result of one call of `AbortHandle::new_pair`. Only
/// a call that gave them together makes this known of them.
pub open spec fn paired(handle: AbortHandle, registration: AbortRegistration) -> bool {
    call_ensures(AbortHandle::new_pair, (), (handle, registration))
}

/// `AbortHandle::abort` can be called on the handle and return. Only such a call
/// makes this known of the handle.
pub open spec fn asked_to_abort(handle: AbortHandle) -> bool {
    call_ensures(AbortHandle::abort, (&handle,), ())
}

/// What aborts the future that is waited for, where one is.
pub open spec fn aborts(canceller: Canceller) -> Option<AbortHandle> {
    match canceller {
        Canceller::Handle(handle) => Some(handle),
        _ => None,
    }
}

/// A wait has begun: its future is built with one end of a pair, and the
/// canceller keeps the other.
pub open spec fn begun<T>(timeout: u32, canceller: Canceller, action: WaitAction<T>) -> bool {
    &&& action matches WaitAction::Run { registration, limit }
    &&& canceller matches Canceller::Handle(handle)
    &&& paired(handle, registration)
    &&& limit == if timeout == 0 {
        None
    } else {
        Some(timeout as u64)
    }
}

/// The result that the end of a future stands for.
pub open spec fn result_of<T>(outcome: WaitOutcome<T>) -> Result<T, WaitError> {
    match outcome {
        WaitOutcome::Done(value) => Ok(value),
        WaitOutcome::TimedOut(elapsed) => Err(
            WaitError::FutureError(ErrorMessage::ResolvedWithError { elapsed }),
        ),
        WaitOutcome::Aborted => Err(WaitError::FutureAborted),
    }
}

/// Why a wait cannot begin, where it cannot.
pub open spec fn refusal(canceller: Canceller) -> Option<WaitError> {
    match canceller {
        Canceller::Idle => None,
        Canceller::Handle(_) => Some(WaitError::FutureError(ErrorMessage::OldCanceller)),
        Canceller::Cancelled => Some(WaitError::FutureAborted),
    }
}

/// What a wait gives when its future has ended.
pub open spec fn wait_result<T>(canceller: Canceller, outcome: WaitOutcome<T>) -> Result<
    T,
    WaitError,
> {
    if canceller == Canceller::Cancelled {
        Err(WaitError::FutureAborted)
    } else {
        result_of(outcome)
    }
}

/// What a wait leaves behind.
pub open spec fn after_wait(canceller: Canceller) -> Canceller {
    if canceller == Canceller::Cancelled {
        Canceller::Cancelled
    } else {
        Canceller::Idle
    }
}

/// What allowing to wait again leaves behind.
pub open spec fn unlocked(canceller: Canceller) -> Canceller {
    if canceller == Canceller::Cancelled {
        Canceller::Idle
    } else {
        canceller
    }
}

impl Default for Canceller {
    fn default() -> (canceller: Self)
        ensures
            canceller == Canceller::Idle,
    {
        Canceller::Idle
    }
}

impl Canceller {
    /// Cancels waiting and hands out what aborts the future that is waited for.
    pub fn cancel(&mut self) -> (handle: Option<AbortHandle>)
        ensures
            *final(self) == Canceller::Cancelled,
            handle == aborts(*old(self)),
    {
        let mut canceller = Canceller::Cancelled;
        std::mem::swap(&mut canceller, self);
        match canceller {
            Canceller::Handle(handle) => Some(handle),
            _ => None,
        }
    }

    /// Cancels waiting, and aborts the future that is waited for.
    pub fn abort(&mut self)
        ensures
            *final(self) == Canceller::Cancelled,
            aborts(*old(self)) matches Some(handle) ==> asked_to_abort(handle),
    {
        if let Some(handle) = self.cancel() {
            let abort = AbortHandle::abort;
            abort(&handle);
        }
    }

    /// Allows waiting again after it was cancelled.
    pub fn unlock_stop(&mut self)
        ensures
            *final(self) == unlocked(*old(self)),
    {
        let cancelled = match self {
            Canceller::Cancelled => true,
            _ => false,
        };
        if cancelled {
            *self = Canceller::Idle;
        }
    }
}

/// Decides what a wait does. It begins where nothing is waited for and waiting
/// was not cancelled. It ends with the result of its future, or as aborted
/// where waiting was cancelled meanwhile.
pub fn wait<T>(canceller: &mut Canceller, event: WaitEvent<T>) -> (action: WaitAction<T>)
    ensures
        event matches WaitEvent::Begin { timeout } ==> match refusal(*old(canceller)) {
            Some(err) => {
                &&& *final(canceller) == *old(canceller)
                &&& action == WaitAction::<T>::Finish(Err(err))
            },
            None => begun(timeout, *final(canceller), action),
        },
        event matches WaitEvent::Ended(outcome) ==> {
            &&& *final(canceller) == after_wait(*old(canceller))
            &&& action == WaitAction::Finish(wait_result(*old(canceller), outcome))
        },
{
    match event {
        WaitEvent::Begin { timeout } => {
            match canceller {
                Canceller::Cancelled => {
                    return WaitAction::Finish(Err(WaitError::FutureAborted));
                },
                Canceller::Handle(_) => {
                    return WaitAction::Finish(
                        Err(WaitError::FutureError(ErrorMessage::OldCanceller)),
                    );
                },
                Canceller::Idle => {},
            }
            let new_pair = AbortHandle::new_pair;
            let (handle, registration) = new_pair();
            *canceller = Canceller::Handle(handle);
            let limit: Option<u64> = if timeout == 0 {
                None
            } else {
                Some(timeout as u64)
            };
            WaitAction::Run { registration, limit }
        },
        WaitEvent::Ended(outcome) => {
            match canceller {
                Canceller::Cancelled => {
                    return WaitAction::Finish(Err(WaitError::FutureAborted));
                },
                _ => {},
            }
            *canceller = Canceller::Idle;
            WaitAction::Finish(
                match outcome {
                    WaitOutcome::Done(value) => Ok(value),
                    WaitOutcome::TimedOut(elapsed) => Err(
                        WaitError::FutureError(ErrorMessage::ResolvedWithError { elapsed }),
                    ),
                    WaitOutcome::Aborted => Err(WaitError::FutureAborted),
                },
            )
        },
    }
}

/// Cancelling reaches the wait under way: what it hands out to be aborted is the
/// other end of the very future that the wait runs. The wait then ends as
/// aborted, and stays cancelled.
pub proof fn law_cancelling_reaches_the_wait<T>(
    timeout: u32,
    canceller: Canceller,
    action: WaitAction<T>,
    outcome: WaitOutcome<T>,
)
    requires
        begun(timeout, canceller, action),
    ensures
        aborts(canceller) matches Some(handle) && action matches WaitAction::Run { registration, .. }
            && paired(handle, registration),
        wait_result(Canceller::Cancelled, outcome) == Err::<T, WaitError>(WaitError::FutureAborted),
        after_wait(Canceller::Cancelled) == Canceller::Cancelled,
{
}

/// A wait whose future was aborted ends as aborted, also where waiting was
/// allowed again meanwhile.
pub proof fn law_aborted_future_gives_no_result<T>(canceller: Canceller)
    ensures
        wait_result(canceller, WaitOutcome::<T>::Aborted) == Err::<T, WaitError>(
            WaitError::FutureAborted,
        ),
{
}

/// A wait that was cancelled gives no result, whatever its future came to, and
/// no wait begins until waiting is allowed again.
pub proof fn law_cancelling_wins<T>(outcome: WaitOutcome<T>)
    ensures
        wait_result(Canceller::Cancelled, outcome) == Err::<T, WaitError>(WaitError::FutureAborted),
        after_wait(Canceller::Cancelled) == Canceller::Cancelled,
        refusal(Canceller::Cancelled) == Some(WaitError::FutureAborted),
        refusal(unlocked(Canceller::Cancelled)) is None,
{
}

/// A wait that was not cancelled gives what its future came to, and makes room
/// for the next wait.
pub proof fn law_waits_follow_one_another<T>(canceller: Canceller, outcome: WaitOutcome<T>)
    requires
        canceller != Canceller::Cancelled,
    ensures
        wait_result(canceller, outcome) == result_of(outcome),
        refusal(after_wait(canceller)) is None,
{
}

/// While a wait is under way no other begins, and allowing to wait again does
/// not end it.
pub proof fn law_one_wait_at_a_time(canceller: Canceller)
    requires
        canceller is Handle,
    ensures
        refusal(canceller) == Some(WaitError::FutureError(ErrorMessage::OldCanceller)),
        unlocked(canceller) == canceller,
{
}

/// A wait gives a value exactly where its future gave that value and waiting was
/// not cancelled. Where its time was up, it says so in the words of the timer.
pub proof fn law_wait_gives_what_its_future_gave<T>(
    canceller: Canceller,
    outcome: WaitOutcome<T>,
    value: T,
    elapsed: String,
)
    ensures
        wait_result(canceller, outcome) == Ok::<T, WaitError>(value) <==> !(canceller is Cancelled)
            && outcome == WaitOutcome::Done(value),
        wait_result(canceller, outcome) == Err::<T, WaitError>(
            WaitError::FutureError(ErrorMessage::ResolvedWithError { elapsed }),
        ) <==> !(canceller is Cancelled) && outcome == WaitOutcome::<T>::TimedOut(elapsed),
        wait_result(canceller, outcome) == Err::<T, WaitError>(WaitError::FutureAborted)
            <==> canceller is Cancelled || outcome is Aborted,
{
}

/// A wait begins exactly where nothing is waited for and waiting was not
/// cancelled, and leaves that so when it ends unless it was cancelled. Allowing
/// to wait again undoes cancelling, and only that.
pub proof fn law_when_a_wait_begins(canceller: Canceller)
    ensures
        refusal(canceller) is None <==> canceller is Idle,
        refusal(canceller) == Some(WaitError::FutureAborted) <==> canceller is Cancelled,
        after_wait(canceller) is Cancelled <==> canceller is Cancelled,
        after_wait(canceller) is Idle <==> !(canceller is Cancelled),
        unlocked(canceller) is Idle <==> !(canceller is Handle),
        aborts(unlocked(canceller)) == aborts(canceller),
{
}

/// The time limit of a wait is the one that it was given, and a limit of zero
/// stands for none.
pub proof fn law_limit_is_the_one_given<T>(
    timeout: u32,
    canceller: Canceller,
    registration: AbortRegistration,
    limit: Option<u64>,
)
    requires
        begun(timeout, canceller, WaitAction::<T>::Run { registration, limit }),
    ensures
        limit is None <==> timeout == 0,
        limit matches Some(seconds) ==> seconds == timeout,
{
}

} // verus!
