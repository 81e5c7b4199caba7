//! The two-level failure taxonomy, at event and at transaction granularity.
//! Each error carries the application's cause, of type `E`.
use vstd::prelude::*;

verus! {

/// What an event handler can fail with.
pub enum EventHandlerError<E> {
    /// Try the same event again after the configured delay.
    EventRetryError(E),
    /// Abort the whole run.
    UnrecoverableError(E),
}

/// What a transaction handler can fail with.
pub enum TransactionHandlerError<E> {
    /// Try the same transaction again after the configured delay.
    TransactionRetryError(E),
    /// Abort the whole run.
    UnrecoverableError(E),
}

/// What ends the processor's run with an error.
pub enum TransactionStreamProcessorError<E> {
    UnrecoverableError(E),
}

impl<E> EventHandlerError<E> {
    /// The application's cause, whichever variant carries it.
    pub open spec fn cause(&self) -> E {
        match self {
            EventHandlerError::EventRetryError(e) => *e,
            EventHandlerError::UnrecoverableError(e) => *e,
        }
    }
}

impl<E> TransactionHandlerError<E> {
    /// The application's cause, whichever variant carries it.
    pub open spec fn cause(&self) -> E {
        match self {
            TransactionHandlerError::TransactionRetryError(e) => *e,
            TransactionHandlerError::UnrecoverableError(e) => *e,
        }
    }

    /// An event error seen at the transaction level: a retry stays a retry,
    /// anything unrecoverable stays unrecoverable, and the cause is kept.
    pub open spec fn lifted(err: EventHandlerError<E>) -> Self {
        match err {
            EventHandlerError::EventRetryError(e) => TransactionHandlerError::TransactionRetryError(e),
            EventHandlerError::UnrecoverableError(e) => TransactionHandlerError::UnrecoverableError(e),
        }
    }

    /// Lifts an event error to the transaction level.
    pub fn from_event_error(err: EventHandlerError<E>) -> (r: Self)
        ensures
            r == Self::lifted(err),
            r.cause() == err.cause(),
    {
        match err {
            EventHandlerError::EventRetryError(e) => TransactionHandlerError::TransactionRetryError(e),
            EventHandlerError::UnrecoverableError(e) => TransactionHandlerError::UnrecoverableError(e),
        }
    }
}

impl<E> TransactionStreamProcessorError<E> {
    /// The application's cause.
    pub open spec fn cause(&self) -> E {
        match self {
            TransactionStreamProcessorError::UnrecoverableError(e) => *e,
        }
    }

    /// Returns the cause that ended the run.
    pub fn into_cause(self) -> (r: E)
        ensures
            r == self.cause(),
    {
        match self {
            TransactionStreamProcessorError::UnrecoverableError(e) => e,
        }
    }
}

} // verus!
