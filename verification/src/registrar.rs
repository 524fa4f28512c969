//! The registrar: what to do next, given what has happened so far.
//!
//! The registrar itself sends nothing. Its caller feeds it events and
//! carries out the actions it answers with: [`Event::Start`] once, then the
//! catalog's reply to the request that the registrar handed out. An event
//! that does not fit the phase changes nothing and asks for nothing, so a
//! registrar hands out one request at most, whatever it is fed.

use crate::descriptor::{is_valid, TableDescriptor, TableModel};
use crate::error::ServiceFailure;
use crate::wire::{request_of, to_request, CreateTableRequest, RequestModel};
use vstd::prelude::*;

verus! {

/// The message of the record that reports a created table.
pub const REPORT_MESSAGE: &'static str = "Created table in AWS Glue";

/// How far a registration has come.
#[derive(Clone, Copy, Debug, PartialEq, Eq)]
pub enum Phase {
    /// Nothing was sent yet.
    Ready,
    /// The request was handed out; the catalog's reply is awaited.
    Submitted,
    /// The catalog created the table.
    Succeeded,
    /// The catalog, or the way to it, failed.
    Failed,
}

/// What the registrar's caller tells it.
#[derive(Clone, Copy, Debug, PartialEq, Eq)]
pub enum Event {
    /// The registration is to begin.
    Start,
    /// The catalog acknowledged the request.
    Created,
    /// The request failed.
    Refused(ServiceFailure),
}

/// The one record that a successful registration logs.
#[derive(Clone, Debug, PartialEq, Eq)]
pub struct LogRecord {
    /// The name of the table that was created.
    pub table_name: String,
    /// What happened to it.
    pub message: String,
}

/// A log record as contracts speak of it.
pub struct RecordModel {
    pub table_name: Seq<char>,
    pub message: Seq<char>,
}

impl View for LogRecord {
    type V = RecordModel;

    open spec fn view(&self) -> RecordModel {
        RecordModel { table_name: self.table_name@, message: self.message@ }
    }
}

/// What the registrar asks its caller to do.
#[derive(Clone, Debug, PartialEq, Eq)]
pub enum Action {
    /// Send this request to the catalog, once, and come back with its reply.
    Send(CreateTableRequest),
    /// Log this record and end with success.
    Report(LogRecord),
    /// End with this failure. Nothing is to be tried again.
    Abort(ServiceFailure),
    /// The event does not fit the phase: do nothing.
    Ignore,
}

/// An action as contracts speak of it.
pub enum ActionModel {
    Send(RequestModel),
    Report(RecordModel),
    Abort(ServiceFailure),
    Ignore,
}

impl View for Action {
    type V = ActionModel;

    open spec fn view(&self) -> ActionModel {
        match self {
            Action::Send(request) => ActionModel::Send(request@),
            Action::Report(record) => ActionModel::Report(record@),
            Action::Abort(failure) => ActionModel::Abort(*failure),
            Action::Ignore => ActionModel::Ignore,
        }
    }
}

/// The record that reports the creation of a table.
pub open spec fn record_of(table: TableModel) -> RecordModel {
    RecordModel { table_name: table.name, message: REPORT_MESSAGE@ }
}

/// The phase that follows `phase` on `event`.
pub open spec fn next_phase(phase: Phase, event: Event) -> Phase {
    match (phase, event) {
        (Phase::Ready, Event::Start) => Phase::Submitted,
        (Phase::Submitted, Event::Created) => Phase::Succeeded,
        (Phase::Submitted, Event::Refused(_)) => Phase::Failed,
        _ => phase,
    }
}

/// The action that the registrar of `table` asks for in `phase` on `event`.
pub open spec fn action_for(table: TableModel, phase: Phase, event: Event) -> ActionModel {
    match (phase, event) {
        (Phase::Ready, Event::Start) => ActionModel::Send(request_of(table)),
        (Phase::Submitted, Event::Created) => ActionModel::Report(record_of(table)),
        (Phase::Submitted, Event::Refused(failure)) => ActionModel::Abort(failure),
        _ => ActionModel::Ignore,
    }
}

/// The phase that a registrar in `phase` reaches when it is fed `events` in turn.
pub open spec fn phase_after(phase: Phase, events: Seq<Event>) -> Phase
    decreases events.len(),
{
    if events.len() == 0 {
        phase
    } else {
        phase_after(next_phase(phase, events[0]), events.drop_first())
    }
}

/// How many requests a registrar in `phase` hands out when it is fed `events` in turn.
pub open spec fn requests_sent(table: TableModel, phase: Phase, events: Seq<Event>) -> nat
    decreases events.len(),
{
    if events.len() == 0 {
        0
    } else {
        let now: nat = if action_for(table, phase, events[0]) is Send {
            1
        } else {
            0
        };
        now + requests_sent(table, next_phase(phase, events[0]), events.drop_first())
    }
}

/// How many records a registrar in `phase` reports when it is fed `events` in turn.
pub open spec fn records_reported(table: TableModel, phase: Phase, events: Seq<Event>) -> nat
    decreases events.len(),
{
    if events.len() == 0 {
        0
    } else {
        let now: nat = if action_for(table, phase, events[0]) is Report {
            1
        } else {
            0
        };
        now + records_reported(table, next_phase(phase, events[0]), events.drop_first())
    }
}

/// A registrar as contracts speak of it.
pub struct RegistrarModel {
    pub table: TableModel,
    pub phase: Phase,
}

/// Registers one table: holds its descriptor and the phase that the
/// registration has reached.
#[derive(Debug)]
pub struct Registrar {
    table: TableDescriptor,
    phase: Phase,
}

impl View for Registrar {
    type V = RegistrarModel;

    closed spec fn view(&self) -> RegistrarModel {
        RegistrarModel { table: self.table@, phase: self.phase }
    }
}

impl Registrar {
    /// A registrar that is ready to register `table`.
    pub fn new(table: TableDescriptor) -> (registrar: Registrar)
        ensures
            registrar@ == (RegistrarModel { table: table@, phase: Phase::Ready }),
    {
        Registrar { table, phase: Phase::Ready }
    }

    /// The phase that the registration has reached.
    pub fn phase(&self) -> (phase: Phase)
        ensures
            phase == self@.phase,
    {
        self.phase
    }

    /// The descriptor of the table that is registered.
    pub fn table(&self) -> (table: &TableDescriptor)
        ensures
            table@ == self@.table,
    {
        &self.table
    }

    /// Takes one event, moves to the phase that follows, and answers with
    /// the action that the caller is to carry out. A request is handed out
    /// for a table that meets every rule of a descriptor, and for no other.
    pub fn step(&mut self, event: Event) -> (action: Action)
        ensures
            final(self)@.table == old(self)@.table,
            final(self)@.phase == next_phase(old(self)@.phase, event),
            action@ == action_for(old(self)@.table, old(self)@.phase, event),
            action@ is Send ==> is_valid(old(self)@.table),
    {
        proof {
            use_type_invariant(&self.table);
        }
        match (self.phase, event) {
            (Phase::Ready, Event::Start) => {
                self.phase = Phase::Submitted;
                Action::Send(to_request(&self.table))
            },
            (Phase::Submitted, Event::Created) => {
                self.phase = Phase::Succeeded;
                Action::Report(
                    LogRecord {
                        table_name: self.table.name().to_owned(),
                        message: REPORT_MESSAGE.to_owned(),
                    },
                )
            },
            (Phase::Submitted, Event::Refused(failure)) => {
                self.phase = Phase::Failed;
                Action::Abort(failure)
            },
            _ => Action::Ignore,
        }
    }
}

/// Once the request has been handed out, no event brings the registrar to
/// hand out another.
pub proof fn lemma_nothing_sent_after_start(table: TableModel, phase: Phase, events: Seq<Event>)
    requires
        phase != Phase::Ready,
    ensures
        requests_sent(table, phase, events) == 0,
    decreases events.len(),
{
    if events.len() > 0 {
        lemma_nothing_sent_after_start(
            table,
            next_phase(phase, events[0]),
            events.drop_first(),
        );
    }
}

/// Whatever events arrive, and in whatever order, the registrar hands out
/// one request at most.
pub proof fn lemma_at_most_one_request(table: TableModel, phase: Phase, events: Seq<Event>)
    ensures
        requests_sent(table, phase, events) <= 1,
    decreases events.len(),
{
    if events.len() > 0 {
        let next = next_phase(phase, events[0]);
        if next == Phase::Ready {
            lemma_at_most_one_request(table, next, events.drop_first());
        } else {
            lemma_nothing_sent_after_start(table, next, events.drop_first());
        }
    }
}

/// A registrar that is ready and is told to start, at whatever place among
/// the events, hands out exactly one request.
pub proof fn lemma_one_request_once_started(table: TableModel, events: Seq<Event>)
    requires
        events.contains(Event::Start),
    ensures
        requests_sent(table, Phase::Ready, events) == 1,
    decreases events.len(),
{
    if events[0] == Event::Start {
        lemma_nothing_sent_after_start(table, Phase::Submitted, events.drop_first());
    } else {
        let i = choose|i: int| 0 <= i < events.len() && events[i] == Event::Start;
        assert(events.drop_first()[i - 1] == Event::Start);
        lemma_one_request_once_started(table, events.drop_first());
    }
}

/// Once the registration has succeeded or failed, every event is ignored:
/// the phase stays, nothing is sent and nothing is reported.
pub proof fn lemma_end_is_final(table: TableModel, phase: Phase, events: Seq<Event>)
    requires
        phase == Phase::Succeeded || phase == Phase::Failed,
    ensures
        phase_after(phase, events) == phase,
        requests_sent(table, phase, events) == 0,
        records_reported(table, phase, events) == 0,
        forall|event: Event| #[trigger] action_for(table, phase, event) is Ignore,
    decreases events.len(),
{
    if events.len() > 0 {
        lemma_end_is_final(table, phase, events.drop_first());
    }
}

/// Whatever events arrive, and in whatever order, the registrar reports one
/// record at most.
pub proof fn lemma_at_most_one_record(table: TableModel, phase: Phase, events: Seq<Event>)
    ensures
        records_reported(table, phase, events) <= 1,
    decreases events.len(),
{
    if events.len() > 0 {
        let next = next_phase(phase, events[0]);
        if action_for(table, phase, events[0]) is Report {
            lemma_end_is_final(table, next, events.drop_first());
        } else {
            lemma_at_most_one_record(table, next, events.drop_first());
        }
    }
}

/// A registration that the catalog acknowledges sends the table's request
/// once and reports one record, which bears the table's name.
pub proof fn lemma_created_reports_once(table: TableModel)
    ensures
        action_for(table, Phase::Ready, Event::Start) == ActionModel::Send(request_of(table)),
        action_for(table, Phase::Submitted, Event::Created) == ActionModel::Report(
            record_of(table),
        ),
        record_of(table).table_name == table.name,
        requests_sent(table, Phase::Ready, seq![Event::Start, Event::Created]) == 1,
        records_reported(table, Phase::Ready, seq![Event::Start, Event::Created]) == 1,
        phase_after(Phase::Ready, seq![Event::Start, Event::Created]) == Phase::Succeeded,
{
    let events = seq![Event::Start, Event::Created];
    let rest = events.drop_first();
    assert(rest.drop_first().len() == 0);
    assert(requests_sent(table, Phase::Succeeded, rest.drop_first()) == 0);
    assert(records_reported(table, Phase::Succeeded, rest.drop_first()) == 0);
    assert(requests_sent(table, Phase::Submitted, rest) == 0);
    assert(records_reported(table, Phase::Submitted, rest) == 1);
    assert(phase_after(Phase::Succeeded, rest.drop_first()) == Phase::Succeeded);
    assert(phase_after(Phase::Submitted, rest) == Phase::Succeeded);
}

/// A registration that fails, of whatever kind the failure is, aborts with
/// that failure and is never tried again: whatever events follow, the one
/// request that was handed out stays the only one, and nothing is reported.
pub proof fn lemma_refused_is_not_retried(
    table: TableModel,
    failure: ServiceFailure,
    later: Seq<Event>,
)
    ensures
        action_for(table, Phase::Submitted, Event::Refused(failure)) == ActionModel::Abort(
            failure,
        ),
        requests_sent(table, Phase::Ready, seq![Event::Start, Event::Refused(failure)] + later)
            == 1,
        records_reported(table, Phase::Ready, seq![Event::Start, Event::Refused(failure)] + later)
            == 0,
        phase_after(Phase::Ready, seq![Event::Start, Event::Refused(failure)] + later)
            == Phase::Failed,
{
    let events = seq![Event::Start, Event::Refused(failure)] + later;
    let rest = events.drop_first();
    assert(rest.drop_first() =~= later);
    lemma_end_is_final(table, Phase::Failed, later);
    assert(requests_sent(table, Phase::Submitted, rest) == 0);
    assert(records_reported(table, Phase::Submitted, rest) == 0);
    assert(phase_after(Phase::Submitted, rest) == Phase::Failed);
}

} // verus!
