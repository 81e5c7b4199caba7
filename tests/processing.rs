use radix_event_stream::error::{
    EventHandlerError, TransactionHandlerError, TransactionStreamProcessorError,
};
use radix_event_stream::gateway::GatewayTransactionStream;
use radix_event_stream::models::{Event, EventEmitter, Transaction};
use radix_event_stream::processor::{
    event_is_dispatchable, next_dispatchable, transaction_is_dispatchable, EventProcessor,
    EventStep, LoggingMode, ProcessorSettings, TransactionStep,
};
use radix_event_stream::registry::HandlerRegistry;

fn event(address: &str, name: &str) -> Event {
    Event {
        name: name.to_string(),
        emitter: EventEmitter::Method { entity_address: address.to_string() },
        binary_sbor_data: vec![1, 2, 3],
    }
}

fn transaction(state_version: u64, events: Vec<Event>) -> Transaction {
    Transaction {
        intent_hash: format!("txid_{}", state_version),
        state_version,
        confirmed_at: None,
        events,
    }
}

/// Runs the event loop of one transaction as a driver would, with `attempt`
/// standing for the handler. Returns the outcome, the positions of the
/// events in the order of the handler calls, and the waits taken.
fn drive_events(
    processor: &EventProcessor,
    tx: &Transaction,
    reg: &HandlerRegistry<u32>,
    mut attempt: impl FnMut(usize) -> Result<(), EventHandlerError<String>>,
) -> (Result<(), EventHandlerError<String>>, Vec<usize>, Vec<u64>) {
    let mut calls = Vec::new();
    let mut waits = Vec::new();
    let mut from = 0;
    while let Some(i) = processor.next_event(tx, reg, from) {
        loop {
            calls.push(i);
            match processor.after_attempt(attempt(i)) {
                EventStep::Finished => break,
                EventStep::RetryAfter { delay_ms, .. } => waits.push(delay_ms),
                EventStep::Abort(err) => return (Err(err), calls, waits),
            }
        }
        from = i + 1;
    }
    (Ok(()), calls, waits)
}

/// Runs the stream loop over `txs` with `handle` standing for the transaction
/// handler. Returns the outcome and the state versions that were handled.
fn drive_stream(
    settings: &ProcessorSettings,
    reg: &HandlerRegistry<u32>,
    txs: Vec<Transaction>,
    mut handle: impl FnMut(&Transaction) -> Result<(), TransactionHandlerError<String>>,
) -> (Result<(), TransactionStreamProcessorError<String>>, Vec<u64>) {
    let mut handled = Vec::new();
    for tx in txs {
        if !transaction_is_dispatchable(reg, &tx) {
            continue;
        }
        loop {
            match settings.after_transaction_attempt(handle(&tx)) {
                TransactionStep::Processed => break,
                TransactionStep::RetryAfter { .. } => {}
                TransactionStep::Fatal(err) => return (Err(err), handled),
            }
        }
        handled.push(tx.state_version);
    }
    (Ok(()), handled)
}

fn registry_with(keys: &[(&str, &str)]) -> HandlerRegistry<u32> {
    let mut reg = HandlerRegistry::new();
    for (n, (a, e)) in keys.iter().enumerate() {
        reg.register(a.to_string(), e.to_string(), n as u32);
    }
    reg
}

#[test]
fn transaction_without_events_is_skipped() {
    let reg = registry_with(&[("component_1", "Swap")]);
    let tx = transaction(1, vec![]);
    assert!(!transaction_is_dispatchable(&reg, &tx));
    let mut invoked = 0;
    let (r, handled) = drive_stream(&ProcessorSettings::new(), &reg, vec![tx], |_| {
        invoked += 1;
        Ok(())
    });
    assert!(r.is_ok());
    assert!(handled.is_empty());
    assert_eq!(invoked, 0);
}

#[test]
fn transaction_without_matching_events_is_skipped() {
    let reg = registry_with(&[("component_1", "Swap")]);
    let tx = transaction(2, vec![event("component_2", "Swap"), event("component_1", "Deposit")]);
    assert!(!transaction_is_dispatchable(&reg, &tx));
    assert_eq!(next_dispatchable(&reg, &tx.events, 0), None);
}

#[test]
fn single_matching_event_is_handled_once() {
    let reg = registry_with(&[("component_1", "Swap")]);
    let tx = transaction(3, vec![event("component_1", "Swap")]);
    assert!(transaction_is_dispatchable(&reg, &tx));
    let ep = ProcessorSettings::new().event_processor();
    let mut count = 0;
    let (r, calls, waits) = drive_events(&ep, &tx, &reg, |_| {
        count += 1;
        Ok(())
    });
    assert!(r.is_ok());
    assert_eq!(count, 1);
    assert_eq!(calls, vec![0]);
    assert!(waits.is_empty());
    let (r, handled) = drive_stream(&ProcessorSettings::new(), &reg, vec![tx], |_| Ok(()));
    assert!(r.is_ok());
    assert_eq!(handled, vec![3]);
}

#[test]
fn event_retried_twice_then_finished() {
    let reg = registry_with(&[("component_1", "Swap")]);
    let tx = transaction(4, vec![event("component_1", "Swap")]);
    let ep = ProcessorSettings::new().event_retry_delay(10).event_processor();
    let mut count = 0;
    let (r, calls, waits) = drive_events(&ep, &tx, &reg, |_| {
        count += 1;
        if count <= 2 {
            Err(EventHandlerError::EventRetryError(format!("try {}", count)))
        } else {
            Ok(())
        }
    });
    assert!(r.is_ok());
    assert_eq!(count, 3);
    assert_eq!(calls, vec![0, 0, 0]);
    assert_eq!(waits, vec![10, 10]);
}

#[test]
fn events_dispatched_in_transaction_order() {
    let reg = registry_with(&[("c1", "A"), ("c2", "B")]);
    let tx = transaction(
        5,
        vec![event("c2", "B"), event("c9", "A"), event("c1", "A"), event("c2", "B"), event("c1", "Z")],
    );
    let ep = EventProcessor::new(0);
    let (r, calls, _) = drive_events(&ep, &tx, &reg, |_| Ok(()));
    assert!(r.is_ok());
    assert_eq!(calls, vec![0, 2, 3]);
    assert_eq!(next_dispatchable(&reg, &tx.events, 1), Some(2));
    assert_eq!(next_dispatchable(&reg, &tx.events, 4), None);
    assert_eq!(next_dispatchable(&reg, &tx.events, 9), None);
    assert!(event_is_dispatchable(&reg, &tx.events[0]));
    assert!(!event_is_dispatchable(&reg, &tx.events[1]));
}

#[test]
fn unrecoverable_event_error_stops_remaining_events() {
    let reg = registry_with(&[("c1", "A")]);
    let tx = transaction(6, vec![event("c1", "A"), event("c1", "A")]);
    let ep = EventProcessor::new(5);
    let (r, calls, _) = drive_events(&ep, &tx, &reg, |_| {
        Err(EventHandlerError::UnrecoverableError("db down".to_string()))
    });
    assert_eq!(calls, vec![0]);
    let lifted = TransactionHandlerError::from_event_error(r.unwrap_err());
    match ProcessorSettings::new().after_transaction_attempt(Err(lifted)) {
        TransactionStep::Fatal(err) => assert_eq!(err.into_cause(), "db down"),
        _ => panic!("expected a fatal step"),
    }
}

#[test]
fn unrecoverable_transaction_error_ends_run() {
    let reg = registry_with(&[("c1", "A")]);
    let txs = vec![
        transaction(7, vec![event("c1", "A")]),
        transaction(8, vec![event("c1", "A")]),
        transaction(9, vec![event("c1", "A")]),
    ];
    let mut seen = Vec::new();
    let (r, handled) = drive_stream(&ProcessorSettings::new(), &reg, txs, |tx| {
        seen.push(tx.state_version);
        if tx.state_version == 8 {
            Err(TransactionHandlerError::UnrecoverableError("boom".to_string()))
        } else {
            Ok(())
        }
    });
    assert_eq!(r.map_err(|e| e.into_cause()), Err("boom".to_string()));
    assert_eq!(handled, vec![7]);
    assert_eq!(seen, vec![7, 8]);
}

#[test]
fn transaction_retry_invokes_handler_again() {
    let reg = registry_with(&[("c1", "A")]);
    let settings = ProcessorSettings::new().transaction_retry_delay(25);
    let txs = vec![transaction(10, vec![event("c1", "A")])];
    let mut attempts = 0;
    let (r, handled) = drive_stream(&settings, &reg, txs, |_| {
        attempts += 1;
        if attempts < 5 {
            Err(TransactionHandlerError::TransactionRetryError("later".to_string()))
        } else {
            Ok(())
        }
    });
    assert!(r.is_ok());
    assert_eq!(attempts, 5);
    assert_eq!(handled, vec![10]);
    match settings.after_transaction_attempt::<String>(Err(TransactionHandlerError::TransactionRetryError(
        "x".to_string(),
    ))) {
        TransactionStep::RetryAfter { cause, delay_ms } => {
            assert_eq!(cause, "x");
            assert_eq!(delay_ms, 25);
        }
        _ => panic!("expected a retry"),
    }
}

#[test]
fn stream_closing_after_n_transactions_succeeds() {
    let reg = registry_with(&[("c1", "A")]);
    let txs: Vec<Transaction> = (0..4).map(|v| transaction(v, vec![event("c1", "A")])).collect();
    let (r, handled) = drive_stream(&ProcessorSettings::new(), &reg, txs, |_| Ok(()));
    assert!(r.is_ok());
    assert_eq!(handled, vec![0, 1, 2, 3]);
}

#[test]
fn event_retry_error_lifts_to_transaction_retry() {
    let e = TransactionHandlerError::from_event_error(EventHandlerError::EventRetryError(3u8));
    assert!(matches!(e, TransactionHandlerError::TransactionRetryError(3)));
    let e = TransactionHandlerError::from_event_error(EventHandlerError::UnrecoverableError(4u8));
    assert!(matches!(e, TransactionHandlerError::UnrecoverableError(4)));
}

#[test]
fn settings_defaults_and_builders() {
    let s = ProcessorSettings::new();
    assert_eq!(s.transaction_retry_delay_ms, 10_000);
    assert_eq!(s.event_retry_delay_ms, 10_000);
    assert!(matches!(s.logging, LoggingMode::Default));
    let s = s
        .transaction_retry_delay(1)
        .event_retry_delay(2)
        .logging(LoggingMode::DefaultWithReportInterval { report_interval_ms: 3 });
    assert_eq!(s.transaction_retry_delay_ms, 1);
    assert_eq!(s.event_processor().event_retry_delay_ms(), 2);
    assert!(matches!(s.logging, LoggingMode::DefaultWithReportInterval { report_interval_ms: 3 }));
    let s = s.logging(LoggingMode::Disabled);
    assert!(matches!(s.logging, LoggingMode::Disabled));
}

#[test]
fn event_step_success_finishes() {
    let ep = EventProcessor::new(7);
    assert!(matches!(ep.after_attempt::<u8>(Ok(())), EventStep::Finished));
    assert!(matches!(
        ep.after_attempt(Err(EventHandlerError::EventRetryError(1u8))),
        EventStep::RetryAfter { cause: 1, delay_ms: 7 }
    ));
}

#[test]
fn gateway_defaults_and_builders() {
    let g = GatewayTransactionStream::new();
    assert_eq!(g.url(), "https://mainnet.radixdlt.com");
    assert_eq!(g.start_state_version(), 1);
    assert_eq!(g.page_size(), 100);
    assert_eq!(g.channel_capacity(), 10000);
    assert_eq!(g.wait_after_page_ms(0), Some(500));
    assert_eq!(g.wait_after_page_ms(3), None);
    let g = g
        .gateway_url("https://stokenet.radixdlt.com".to_string())
        .from_state_version(42)
        .limit_per_page(7)
        .buffer_capacity(8)
        .caught_up_timeout_ms(9);
    assert_eq!(g.url(), "https://stokenet.radixdlt.com");
    assert_eq!(g.start_state_version(), 42);
    assert_eq!(g.page_size(), 7);
    assert_eq!(g.channel_capacity(), 8);
    assert_eq!(g.wait_after_page_ms(0), Some(9));
}

#[test]
fn gateway_default_matches_new() {
    let g = GatewayTransactionStream::default();
    assert_eq!(g.url(), "https://mainnet.radixdlt.com");
    assert_eq!(g.start_state_version(), 1);
    assert_eq!(g.wait_after_page_ms(0), Some(500));
}
