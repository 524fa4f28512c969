use table_registrar::descriptor::{create_column, TableDescriptor};
use table_registrar::error::ServiceFailure;
use table_registrar::events::build_descriptor;
use table_registrar::registrar::{Action, Event, LogRecord, Phase, Registrar, REPORT_MESSAGE};
use table_registrar::wire::{from_request, to_request, CreateTableRequest};

/// A catalog that answers every request alike, and counts them.
struct StubCatalog {
    reply: Event,
    calls: usize,
    received: Vec<CreateTableRequest>,
}

impl StubCatalog {
    fn answering(reply: Event) -> StubCatalog {
        StubCatalog { reply, calls: 0, received: Vec::new() }
    }

    fn create_table(&mut self, request: CreateTableRequest) -> Event {
        self.calls += 1;
        self.received.push(request);
        self.reply
    }
}

/// What a run of the registrar against a catalog left behind.
struct Outcome {
    records: Vec<LogRecord>,
    failure: Option<ServiceFailure>,
}

/// Starts the registrar and carries out what it asks for until it asks for nothing more.
fn register(registrar: &mut Registrar, catalog: &mut StubCatalog) -> Outcome {
    let mut outcome = Outcome { records: Vec::new(), failure: None };
    let mut event = Event::Start;
    loop {
        match registrar.step(event) {
            Action::Send(request) => event = catalog.create_table(request),
            Action::Report(record) => {
                outcome.records.push(record);
                return outcome;
            }
            Action::Abort(failure) => {
                outcome.failure = Some(failure);
                return outcome;
            }
            Action::Ignore => return outcome,
        }
    }
}

#[test]
fn a_new_registrar_is_ready() {
    let registrar = Registrar::new(build_descriptor());
    assert_eq!(registrar.phase(), Phase::Ready);
    assert_eq!(registrar.table(), &build_descriptor());
}

#[test]
fn success_is_reported_once_with_the_table_name() {
    let mut registrar = Registrar::new(build_descriptor());
    let mut catalog = StubCatalog::answering(Event::Created);
    let outcome = register(&mut registrar, &mut catalog);
    assert_eq!(outcome.records.len(), 1);
    assert_eq!(outcome.records[0].table_name, "events");
    assert_eq!(outcome.records[0].message, "Created table in AWS Glue");
    assert_eq!(outcome.records[0].message, REPORT_MESSAGE);
    assert_eq!(outcome.failure, None);
    assert_eq!(catalog.calls, 1);
    assert_eq!(registrar.phase(), Phase::Succeeded);
}

#[test]
fn the_catalog_receives_the_request_of_the_descriptor() {
    let mut registrar = Registrar::new(build_descriptor());
    let mut catalog = StubCatalog::answering(Event::Created);
    register(&mut registrar, &mut catalog);
    assert_eq!(catalog.received, vec![to_request(&build_descriptor())]);
    assert_eq!(catalog.received[0].database_name, "ally_security");
}

#[test]
fn a_conflict_aborts_without_a_second_call() {
    let mut registrar = Registrar::new(build_descriptor());
    let mut catalog = StubCatalog::answering(Event::Refused(ServiceFailure::Conflict));
    let outcome = register(&mut registrar, &mut catalog);
    assert_eq!(outcome.failure, Some(ServiceFailure::Conflict));
    assert!(outcome.records.is_empty());
    assert_eq!(catalog.calls, 1);
    assert_eq!(registrar.phase(), Phase::Failed);
}

#[test]
fn every_kind_of_failure_aborts_alike() {
    let kinds = vec![
        ServiceFailure::Conflict,
        ServiceFailure::PermissionDenied,
        ServiceFailure::ValidationFailure,
        ServiceFailure::TransportFailure,
    ];
    for kind in kinds {
        let mut registrar = Registrar::new(build_descriptor());
        let mut catalog = StubCatalog::answering(Event::Refused(kind));
        let outcome = register(&mut registrar, &mut catalog);
        assert_eq!(outcome.failure, Some(kind));
        assert!(outcome.records.is_empty());
        assert_eq!(catalog.calls, 1);
        assert_eq!(registrar.phase(), Phase::Failed);
    }
}

#[test]
fn a_failed_registration_is_not_started_again() {
    let mut registrar = Registrar::new(build_descriptor());
    let mut catalog = StubCatalog::answering(Event::Refused(ServiceFailure::TransportFailure));
    register(&mut registrar, &mut catalog);
    let again = register(&mut registrar, &mut catalog);
    assert!(again.records.is_empty());
    assert_eq!(again.failure, None);
    assert_eq!(catalog.calls, 1);
    assert_eq!(registrar.step(Event::Start), Action::Ignore);
    assert_eq!(registrar.step(Event::Created), Action::Ignore);
    assert_eq!(registrar.phase(), Phase::Failed);
}

#[test]
fn a_finished_registration_reports_nothing_more() {
    let mut registrar = Registrar::new(build_descriptor());
    let mut catalog = StubCatalog::answering(Event::Created);
    register(&mut registrar, &mut catalog);
    assert_eq!(registrar.step(Event::Created), Action::Ignore);
    assert_eq!(registrar.step(Event::Start), Action::Ignore);
    assert_eq!(registrar.step(Event::Refused(ServiceFailure::Conflict)), Action::Ignore);
    assert_eq!(registrar.phase(), Phase::Succeeded);
    assert_eq!(catalog.calls, 1);
}

#[test]
fn a_reply_before_the_start_is_ignored() {
    let mut registrar = Registrar::new(build_descriptor());
    assert_eq!(registrar.step(Event::Created), Action::Ignore);
    assert_eq!(registrar.step(Event::Refused(ServiceFailure::Conflict)), Action::Ignore);
    assert_eq!(registrar.phase(), Phase::Ready);
    assert_eq!(registrar.step(Event::Start), Action::Send(to_request(&build_descriptor())));
    assert_eq!(registrar.phase(), Phase::Submitted);
}

#[test]
fn a_second_start_sends_nothing() {
    let mut registrar = Registrar::new(build_descriptor());
    assert!(matches!(registrar.step(Event::Start), Action::Send(_)));
    assert_eq!(registrar.step(Event::Start), Action::Ignore);
    assert_eq!(registrar.phase(), Phase::Submitted);
    assert!(matches!(registrar.step(Event::Created), Action::Report(_)));
}

#[test]
fn the_record_names_whatever_table_is_registered() {
    let table = TableDescriptor::new(
        "orders",
        "shop",
        "s3://bucket/orders",
        "in",
        "out",
        "lib",
        vec![create_column("id", "bigint", false)],
        vec![],
    )
    .unwrap();
    let mut registrar = Registrar::new(table);
    let mut catalog = StubCatalog::answering(Event::Created);
    let outcome = register(&mut registrar, &mut catalog);
    assert_eq!(
        outcome.records,
        vec![LogRecord {
            table_name: "orders".to_string(),
            message: "Created table in AWS Glue".to_string()
        }]
    );
    assert_eq!(catalog.received[0].table_name, "orders");
    assert_eq!(catalog.received[0].database_name, "shop");
}

#[test]
fn what_the_catalog_received_reads_back_as_the_descriptor() {
    let mut registrar = Registrar::new(build_descriptor());
    let mut catalog = StubCatalog::answering(Event::Created);
    register(&mut registrar, &mut catalog);
    let back = from_request(&catalog.received[0]).unwrap();
    assert_eq!(back.columns(), build_descriptor().columns());
    assert_eq!(back.parameters(), build_descriptor().parameters());
    assert_eq!(&back, registrar.table());
}
