use std::cell::RefCell;
use std::rc::Rc;

use nomad::component::ComponentId;
use nomad::log_service::LogService;
use nomad::logger::{LogHandle, LogLevel, LogRecord, LogSink};
use nomad::sinks::make_default_log_sink;

/// A sink that collects every record it accepts, in order.
struct CollectingSink {
    records: Vec<(u16, &'static str)>,
}

impl LogSink for CollectingSink {
    fn write(&mut self, record: &LogRecord) {
        self.records.push((record.component.0, record.message));
    }
}

/// A sink that appends `(sink id, message)` to a log shared among sinks,
/// so a test can observe the global delivery order across several sinks.
struct SharedOrderSink {
    id: u8,
    deliveries: Rc<RefCell<Vec<(u8, &'static str)>>>,
}

impl LogSink for SharedOrderSink {
    fn write(&mut self, record: &LogRecord) {
        self.deliveries.borrow_mut().push((self.id, record.message));
    }
}

#[test]
/// Draining hands every record to the sink in push order, exactly once,
/// and leaves the service with nothing pending.
fn drain_visits_all_records_in_push_order() {
    let mut service: LogService<4> = LogService::new();
    service.log_message(ComponentId(0), LogLevel::Info, "first");
    service.log_message(ComponentId(1), LogLevel::Warn, "second");
    service.log_message(ComponentId(2), LogLevel::Error, "third");
    assert!(service.has_pending());

    let mut sink = CollectingSink { records: Vec::new() };
    service.drain(&mut sink);

    assert_eq!(sink.records, vec![(0, "first"), (1, "second"), (2, "third")]);
    assert!(!service.has_pending());
    assert_eq!(service.snapshot().len(), 0);
}

#[test]
/// Draining an empty service is a no-op.
fn drain_on_empty_service_is_noop() {
    let mut service: LogService<4> = LogService::new();
    let mut sink = CollectingSink { records: Vec::new() };
    service.drain(&mut sink);
    assert_eq!(sink.records.len(), 0);
    assert!(!service.has_pending());
}

#[test]
/// With sinks [A, B], every record goes to A strictly before B, and both
/// sinks see a record before the next record goes to either.
fn drain_multi_delivers_record_to_all_sinks_before_next() {
    let deliveries: Rc<RefCell<Vec<(u8, &'static str)>>> = Rc::new(RefCell::new(Vec::new()));
    let mut service: LogService<4> = LogService::new();
    service.log_message(ComponentId(0), LogLevel::Info, "one");
    service.log_message(ComponentId(0), LogLevel::Info, "two");
    service.log_message(ComponentId(0), LogLevel::Info, "three");

    let mut sinks = vec![
        SharedOrderSink { id: 0, deliveries: Rc::clone(&deliveries) },
        SharedOrderSink { id: 1, deliveries: Rc::clone(&deliveries) },
    ];
    service.drain_multi(&mut sinks);

    assert_eq!(
        *deliveries.borrow(),
        vec![
            (0, "one"),
            (1, "one"),
            (0, "two"),
            (1, "two"),
            (0, "three"),
            (1, "three"),
        ]
    );
    assert!(!service.has_pending());
}

#[test]
/// A snapshot shows the backlog oldest-first without disturbing it.
fn snapshot_leaves_backlog_pending() {
    let mut service: LogService<4> = LogService::new();
    service.log_message(ComponentId(3), LogLevel::Debug, "kept");
    service.log_message(ComponentId(4), LogLevel::Info, "also kept");

    let view = service.snapshot();
    assert_eq!(view.len(), 2);
    assert_eq!(view[0].message, "kept");
    assert_eq!(view[1].message, "also kept");
    assert!(service.has_pending());

    let again = service.snapshot();
    assert_eq!(again.len(), 2);
}

#[test]
/// Under full backlog, ingestion silently evicts the oldest record.
fn service_evicts_oldest_when_full() {
    let mut service: LogService<2> = LogService::new();
    service.log_message(ComponentId(0), LogLevel::Info, "one");
    service.log_message(ComponentId(0), LogLevel::Info, "two");
    service.log_message(ComponentId(0), LogLevel::Info, "three");

    let view = service.snapshot();
    assert_eq!(view.len(), 2);
    assert_eq!(view[0].message, "two");
    assert_eq!(view[1].message, "three");
}

#[test]
/// The severity labels of the default console sink.
fn default_sink_level_labels() {
    let mut sink = make_default_log_sink();
    assert_eq!(sink.format_level(LogLevel::Error), "ERROR");
    assert_eq!(sink.format_level(LogLevel::Warn), "WARN");
    assert_eq!(sink.format_level(LogLevel::Info), "INFO");
    assert_eq!(sink.format_level(LogLevel::Debug), "DEBUG");
}

#[test]
/// The default console sink accepts records of every severity.
fn default_sink_accepts_records() {
    let mut service: LogService<4> = LogService::new();
    service.log_message(ComponentId(0), LogLevel::Debug, "dbg");
    service.log_message(ComponentId(0), LogLevel::Info, "inf");
    service.log_message(ComponentId(0), LogLevel::Warn, "wrn");
    service.log_message(ComponentId(0), LogLevel::Error, "err");

    let mut sink = make_default_log_sink();
    service.drain(&mut sink);
    assert!(!service.has_pending());
}

#[test]
/// Ingestion through the generic handle helper reaches the service buffer.
fn log_raw_reaches_service() {
    let mut service: LogService<4> = LogService::new();
    nomad::log_raw(&mut service, ComponentId(7), LogLevel::Info, "via handle");

    let view = service.snapshot();
    assert_eq!(view.len(), 1);
    assert_eq!(view[0].component, ComponentId(7));
    assert_eq!(view[0].message, "via handle");
}
