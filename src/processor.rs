//! The decisions of the transaction stream processor and of the event
//! processor: which transactions and events are dispatched, in what order,
//! and what happens after each handler attempt.
//!
//! The loops that await handlers, sleep and notify the observer run around
//! these functions; every choice they make is taken here.
use vstd::prelude::*;
use crate::error::{EventHandlerError, TransactionHandlerError, TransactionStreamProcessorError};
use crate::models::{Event, Transaction};
use crate::registry::{HandlerKey, HandlerRegistry};

verus! {

/// Default delay before a transaction is retried, in milliseconds.
pub const TRANSACTION_RETRY_INTERVAL_MS: u64 = 10_000;

/// Default delay before an event is retried, in milliseconds.
pub const EVENT_RETRY_INTERVAL_MS: u64 = 10_000;

/// Whether a handler is registered for the event's emitter address and name.
pub open spec fn has_handler<H>(reg: Map<HandlerKey, H>, e: Event) -> bool {
    reg.contains_key((e.emitter.address_spec(), e.name@))
}

/// The positions, from `from` on and in increasing order, of the events that
/// have a handler: the order in which they are dispatched.
pub open spec fn dispatch_indices<H>(events: Seq<Event>, reg: Map<HandlerKey, H>, from: nat) -> Seq<
    int,
>
    decreases events.len() - from,
{
    if from >= events.len() {
        Seq::empty()
    } else if has_handler(reg, events[from as int]) {
        seq![from as int] + dispatch_indices(events, reg, from + 1)
    } else {
        dispatch_indices(events, reg, from + 1)
    }
}

/// A transaction is dispatchable when at least one of its events has a handler.
pub open spec fn dispatchable<H>(reg: Map<HandlerKey, H>, tx: Transaction) -> bool {
    exists|i: int| 0 <= i < tx.events@.len() && has_handler(reg, #[trigger] tx.events@[i])
}

/// Events are dispatched in the order in which they stand in the transaction:
/// the dispatch positions increase strictly, and they are exactly the
/// positions from `from` on whose event has a handler.
pub proof fn lemma_dispatch_order<H>(events: Seq<Event>, reg: Map<HandlerKey, H>, from: nat)
    ensures
        forall|a: int, b: int|
            0 <= a < b < dispatch_indices(events, reg, from).len() ==> dispatch_indices(
                events,
                reg,
                from,
            )[a] < dispatch_indices(events, reg, from)[b],
        forall|k: int|
            dispatch_indices(events, reg, from).contains(k) <==> (from <= k < events.len()
                && has_handler(reg, events[k])),
    decreases events.len() - from,
{
    let s = dispatch_indices(events, reg, from);
    if from < events.len() {
        lemma_dispatch_order(events, reg, from + 1);
        let t = dispatch_indices(events, reg, from + 1);
        if has_handler(reg, events[from as int]) {
            assert(s == seq![from as int] + t);
            assert forall|a: int, b: int| 0 <= a < b < s.len() implies s[a] < s[b] by {
                if a == 0 {
                    assert(s[b] == t[b - 1]);
                    assert(t.contains(t[b - 1]));
                } else {
                    assert(s[a] == t[a - 1] && s[b] == t[b - 1]);
                }
            }
            assert forall|k: int| s.contains(k) <==> (from <= k < events.len() && has_handler(
                reg,
                events[k],
            )) by {
                if s.contains(k) {
                    let j = choose|j: int| 0 <= j < s.len() && s[j] == k;
                    if j > 0 {
                        assert(t[j - 1] == k);
                        assert(t.contains(k));
                    }
                }
                if from <= k < events.len() && has_handler(reg, events[k]) {
                    if k == from {
                        assert(s[0] == k);
                    } else {
                        assert(t.contains(k));
                        let j = choose|j: int| 0 <= j < t.len() && t[j] == k;
                        assert(s[j + 1] == k);
                    }
                }
            }
        }
    }
}

/// A transaction with no event that has a handler is skipped: it is not
/// dispatchable and none of its events is dispatched.
pub proof fn lemma_unmatched_transaction_is_skipped<H>(reg: Map<HandlerKey, H>, tx: Transaction)
    requires
        forall|i: int| 0 <= i < tx.events@.len() ==> !has_handler(reg, #[trigger] tx.events@[i]),
    ensures
        !dispatchable(reg, tx),
        dispatch_indices(tx.events@, reg, 0) == Seq::<int>::empty(),
{
    lemma_dispatch_order(tx.events@, reg, 0);
    let s = dispatch_indices(tx.events@, reg, 0);
    if s.len() > 0 {
        assert(s.contains(s[0]));
    }
}

/// Whether `event` has a handler in `registry`.
pub fn event_is_dispatchable<H>(registry: &HandlerRegistry<H>, event: &Event) -> (r: bool)
    requires
        registry.wf(),
    ensures
        r == has_handler(registry@, *event),
{
    registry.handler_exists(event.emitter.address(), &event.name)
}

/// Whether `transaction` has at least one event with a handler in `registry`.
pub fn transaction_is_dispatchable<H>(registry: &HandlerRegistry<H>, transaction: &Transaction) -> (r:
    bool)
    requires
        registry.wf(),
    ensures
        r == dispatchable(registry@, *transaction),
        r == (dispatch_indices(transaction.events@, registry@, 0).len() > 0),
{
    let n = next_dispatchable(registry, &transaction.events, 0);
    proof {
        lemma_dispatch_order(transaction.events@, registry@, 0);
        let s = dispatch_indices(transaction.events@, registry@, 0);
        if s.len() > 0 {
            assert(s.contains(s[0]));
        }
    }
    n.is_some()
}

/// The position of the first event at or after `from` that has a handler.
pub fn next_dispatchable<H>(registry: &HandlerRegistry<H>, events: &Vec<Event>, from: usize) -> (r:
    Option<usize>)
    requires
        registry.wf(),
    ensures
        match r {
            Some(i) => {
                &&& from <= i < events@.len()
                &&& has_handler(registry@, events@[i as int])
                &&& forall|j: int| from <= j < i ==> !has_handler(registry@, #[trigger] events@[j])
                &&& dispatch_indices(events@, registry@, from as nat) == seq![i as int]
                    + dispatch_indices(events@, registry@, (i + 1) as nat)
            },
            None => {
                &&& forall|j: int|
                    from <= j < events@.len() ==> !has_handler(registry@, #[trigger] events@[j])
                &&& dispatch_indices(events@, registry@, from as nat) == Seq::<int>::empty()
            },
        },
{
    let mut i: usize = from;
    while i < events.len()
        invariant
            registry.wf(),
            from <= i,
            forall|j: int| from <= j < i && j < events@.len() ==> !has_handler(registry@, #[trigger] events@[j]),
            dispatch_indices(events@, registry@, from as nat) == dispatch_indices(
                events@,
                registry@,
                i as nat,
            ),
        decreases events@.len() - i,
    {
        if event_is_dispatchable(registry, &events[i]) {
            assert(dispatch_indices(events@, registry@, i as nat) == seq![i as int] + dispatch_indices(
                events@,
                registry@,
                (i + 1) as nat,
            ));
            return Some(i);
        }
        i = i + 1;
    }
    None
}

/// What to do after one attempt of an event handler.
pub enum EventStep<E> {
    /// The event is done: report it finished and go on with the next one.
    Finished,
    /// Report the cause, wait `delay_ms`, then invoke the same handler on the
    /// same event again.
    RetryAfter { cause: E, delay_ms: u64 },
    /// Stop at this event and hand the error to the transaction handler.
    Abort(EventHandlerError<E>),
}

/// What to do after one attempt of the transaction handler.
pub enum TransactionStep<E> {
    /// The transaction is done and was handled.
    Processed,
    /// Report the cause, wait `delay_ms`, then invoke the transaction handler
    /// on the same transaction again.
    RetryAfter { cause: E, delay_ms: u64 },
    /// Report the error and end the run with it.
    Fatal(TransactionStreamProcessorError<E>),
}

/// The step after an event handler attempt, under a retry delay of `delay_ms`.
pub open spec fn event_step<E>(delay_ms: u64, result: Result<(), EventHandlerError<E>>) -> EventStep<
    E,
> {
    match result {
        Ok(()) => EventStep::Finished,
        Err(EventHandlerError::EventRetryError(e)) => EventStep::RetryAfter { cause: e, delay_ms },
        Err(err) => EventStep::Abort(err),
    }
}

/// The step after a transaction handler attempt, under a retry delay of
/// `delay_ms`.
pub open spec fn transaction_step<E>(
    delay_ms: u64,
    result: Result<(), TransactionHandlerError<E>>,
) -> TransactionStep<E> {
    match result {
        Ok(()) => TransactionStep::Processed,
        Err(TransactionHandlerError::TransactionRetryError(e)) => TransactionStep::RetryAfter {
            cause: e,
            delay_ms,
        },
        Err(TransactionHandlerError::UnrecoverableError(e)) => TransactionStep::Fatal(
            TransactionStreamProcessorError::UnrecoverableError(e),
        ),
    }
}

/// Dispatches the events of one transaction: picks each event to hand to its
/// handler and decides, after each attempt, whether to go on, retry or stop.
pub struct EventProcessor {
    event_retry_delay_ms: u64,
}

impl EventProcessor {
    pub closed spec fn retry_delay_ms(&self) -> u64 {
        self.event_retry_delay_ms
    }

    /// An event processor that waits `event_retry_delay_ms` before a retry.
    pub fn new(event_retry_delay_ms: u64) -> (r: Self)
        ensures
            r.retry_delay_ms() == event_retry_delay_ms,
    {
        EventProcessor { event_retry_delay_ms }
    }

    /// The delay before an event is retried, in milliseconds.
    pub fn event_retry_delay_ms(&self) -> (r: u64)
        ensures
            r == self.retry_delay_ms(),
    {
        self.event_retry_delay_ms
    }

    /// The position of the next event of `transaction`, at or after `from`,
    /// that has a handler in the current registry.
    pub fn next_event<H>(&self, transaction: &Transaction, registry: &HandlerRegistry<H>, from: usize) -> (r:
        Option<usize>)
        requires
            registry.wf(),
        ensures
            r == next_dispatchable_spec(transaction.events@, registry@, from as nat),
    {
        let r = next_dispatchable(registry, &transaction.events, from);
        proof {
            let s = dispatch_indices(transaction.events@, registry@, from as nat);
            if let Some(i) = r {
                assert(s[0] == i);
            }
        }
        r
    }

    /// Decides what follows an attempt of an event handler: a success
    /// finishes the event, a retry error waits and tries again (with no bound
    /// on the number of attempts), and any other error aborts.
    pub fn after_attempt<E>(&self, result: Result<(), EventHandlerError<E>>) -> (r: EventStep<E>)
        ensures
            r == event_step(self.retry_delay_ms(), result),
    {
        match result {
            Ok(()) => EventStep::Finished,
            Err(EventHandlerError::EventRetryError(e)) => EventStep::RetryAfter {
                cause: e,
                delay_ms: self.event_retry_delay_ms,
            },
            Err(err) => EventStep::Abort(err),
        }
    }
}

/// The first dispatch position at or after `from`, if there is one.
pub open spec fn next_dispatchable_spec<H>(
    events: Seq<Event>,
    reg: Map<HandlerKey, H>,
    from: nat,
) -> Option<usize> {
    let s = dispatch_indices(events, reg, from);
    if s.len() > 0 {
        Some(s[0] as usize)
    } else {
        None
    }
}

/// How the processor reports its progress.
pub enum LoggingMode {
    /// The built-in observer, with its own report interval.
    Default,
    /// The built-in observer, reporting every `report_interval_ms`.
    DefaultWithReportInterval { report_interval_ms: u64 },
    /// An observer supplied by the caller.
    Custom,
    /// No observer.
    Disabled,
}

/// The recognised options of the transaction stream processor.
pub struct ProcessorSettings {
    pub transaction_retry_delay_ms: u64,
    pub event_retry_delay_ms: u64,
    pub logging: LoggingMode,
}

impl ProcessorSettings {
    /// Retry delays of ten seconds each, and the built-in observer.
    pub fn new() -> (r: Self)
        ensures
            r.transaction_retry_delay_ms == TRANSACTION_RETRY_INTERVAL_MS,
            r.event_retry_delay_ms == EVENT_RETRY_INTERVAL_MS,
            r.logging is Default,
    {
        ProcessorSettings {
            transaction_retry_delay_ms: TRANSACTION_RETRY_INTERVAL_MS,
            event_retry_delay_ms: EVENT_RETRY_INTERVAL_MS,
            logging: LoggingMode::Default,
        }
    }

    /// Sets the delay before a transaction is retried.
    pub fn transaction_retry_delay(self, delay_ms: u64) -> (r: Self)
        ensures
            r == (ProcessorSettings { transaction_retry_delay_ms: delay_ms, ..self }),
    {
        ProcessorSettings { transaction_retry_delay_ms: delay_ms, ..self }
    }

    /// Sets the delay before an event is retried.
    pub fn event_retry_delay(self, delay_ms: u64) -> (r: Self)
        ensures
            r == (ProcessorSettings { event_retry_delay_ms: delay_ms, ..self }),
    {
        ProcessorSettings { event_retry_delay_ms: delay_ms, ..self }
    }

    /// Sets how progress is reported.
    pub fn logging(self, logging: LoggingMode) -> (r: Self)
        ensures
            r == (ProcessorSettings { logging, ..self }),
    {
        ProcessorSettings { logging, ..self }
    }

    /// The event processor for one transaction under these settings.
    pub fn event_processor(&self) -> (r: EventProcessor)
        ensures
            r.retry_delay_ms() == self.event_retry_delay_ms,
    {
        EventProcessor::new(self.event_retry_delay_ms)
    }

    /// Decides what follows an attempt of the transaction handler: a success
    /// ends the transaction, a retry error waits and tries again (with no bound
    /// on the number of attempts), and an unrecoverable error ends the run
    /// with the same cause.
    pub fn after_transaction_attempt<E>(&self, result: Result<(), TransactionHandlerError<E>>) -> (r:
        TransactionStep<E>)
        ensures
            r == transaction_step(self.transaction_retry_delay_ms, result),
    {
        match result {
            Ok(()) => TransactionStep::Processed,
            Err(TransactionHandlerError::TransactionRetryError(e)) => TransactionStep::RetryAfter {
                cause: e,
                delay_ms: self.transaction_retry_delay_ms,
            },
            Err(TransactionHandlerError::UnrecoverableError(e)) => TransactionStep::Fatal(
                TransactionStreamProcessorError::UnrecoverableError(e),
            ),
        }
    }
}

/// A transaction handler that keeps asking for a retry is invoked again after
/// the configured delay each time, however many attempts came before: the
/// step after an attempt depends on that attempt's result alone.
pub proof fn lemma_transaction_retry_is_unbounded<E>(
    delay_ms: u64,
    results: Seq<Result<(), TransactionHandlerError<E>>>,
)
    requires
        forall|n: int|
            0 <= n < results.len() ==> (#[trigger] results[n]) is Err && results[n]->Err_0 is TransactionRetryError,
    ensures
        forall|n: int|
            0 <= n < results.len() ==> #[trigger] transaction_step(delay_ms, results[n])
                == (TransactionStep::RetryAfter { cause: results[n]->Err_0.cause(), delay_ms }),
{
}

/// An event handler's unrecoverable error, passed up through the event
/// processor and the transaction handler, ends the run with the same cause.
pub proof fn lemma_unrecoverable_event_error_ends_run<E>(
    event_delay_ms: u64,
    transaction_delay_ms: u64,
    cause: E,
)
    ensures
        event_step(event_delay_ms, Err(EventHandlerError::UnrecoverableError(cause)))
            == EventStep::Abort(EventHandlerError::UnrecoverableError(cause)),
        ({
            let lifted = TransactionHandlerError::lifted(EventHandlerError::UnrecoverableError(cause));
            let step = transaction_step(transaction_delay_ms, Err(lifted));
            &&& step is Fatal
            &&& step->Fatal_0.cause() == cause
        }),
{
}

} // verus!
