//! The package-preparation state machine.
//!
//! The delivery service packages a mod asynchronously: the client submits a
//! request, receives an opaque handle, polls a status endpoint until the
//! label `prepared` appears, then retrieves the archive from the transmit
//! endpoint. This module holds every decision of that protocol; the caller
//! only performs the transport and feeds each answer back as an event.
//!
//! Polling pauses a fixed second between attempts and is bounded by a poll
//! budget, fixed when the fetch begins, that surfaces as `Timeout` when
//! spent: a job the service never finishes cannot hold the engine forever.

use vstd::prelude::*;
use vstd::string::StringExecFns;

use crate::errors::SyncError;
use crate::protocol::plain_handle;
use crate::protocol::plain_handle_seq;
use crate::protocol::prepared_label;
use crate::protocol::request_body_seq;
use crate::protocol::request_body_text;
use crate::protocol::status_body_seq;
use crate::protocol::status_body_text;
use crate::protocol::transmit_url_seq;
use crate::protocol::transmit_url_text;

verus! {

/// Seconds between two status polls.
pub const POLL_INTERVAL_SECONDS: u64 = 1;

/// Where the fetch stands.
pub enum FetchState {
    /// The packaging request is out; the handle has not arrived yet.
    Requesting { mod_id: u64, budget: u64 },
    /// Polling the status endpoint with the handle.
    Waiting { uuid: String, polls_left: u64 },
    /// The package is prepared; the retrieval request is out.
    Ready { uuid: String },
    /// The archive bytes arrived with the last transmit answer.
    Delivered,
    /// The fetch is over without an archive.
    Failed { error: SyncError },
}

/// The mathematical value of a fetch state.
pub enum FetchStateModel {
    Requesting { mod_id: u64, budget: u64 },
    Waiting { uuid: Seq<char>, polls_left: u64 },
    Ready { uuid: Seq<char> },
    Delivered,
    Failed { error: SyncError },
}

impl View for FetchState {
    type V = FetchStateModel;

    open spec fn view(&self) -> FetchStateModel {
        match self {
            FetchState::Requesting { mod_id, budget } => FetchStateModel::Requesting {
                mod_id: *mod_id,
                budget: *budget,
            },
            FetchState::Waiting { uuid, polls_left } => FetchStateModel::Waiting {
                uuid: uuid@,
                polls_left: *polls_left,
            },
            FetchState::Ready { uuid } => FetchStateModel::Ready { uuid: uuid@ },
            FetchState::Delivered => FetchStateModel::Delivered,
            FetchState::Failed { error } => FetchStateModel::Failed { error: *error },
        }
    }
}

/// One answer from the delivery service, as the caller saw it.
pub enum FetchEvent {
    /// The packaging request was answered with a handle.
    RequestAnswered { uuid: String },
    /// The status endpoint answered; `status` is the label recorded for our
    /// handle, or `None` when the answer had no entry for it.
    StatusAnswered { status: Option<String> },
    /// The transmit endpoint answered; the caller holds the body bytes.
    TransmitAnswered,
    /// A transport or HTTP failure, in whatever phase.
    NetworkFailed,
}

/// The mathematical value of a fetch event.
pub enum FetchEventModel {
    RequestAnswered { uuid: Seq<char> },
    StatusAnswered { status: Option<Seq<char>> },
    TransmitAnswered,
    NetworkFailed,
}

impl View for FetchEvent {
    type V = FetchEventModel;

    open spec fn view(&self) -> FetchEventModel {
        match self {
            FetchEvent::RequestAnswered { uuid } => FetchEventModel::RequestAnswered {
                uuid: uuid@,
            },
            FetchEvent::StatusAnswered { status } => FetchEventModel::StatusAnswered {
                status: match status {
                    Some(st) => Some(st@),
                    None => None,
                },
            },
            FetchEvent::TransmitAnswered => FetchEventModel::TransmitAnswered,
            FetchEvent::NetworkFailed => FetchEventModel::NetworkFailed,
        }
    }
}

/// What the caller must do next.
pub enum FetchAction {
    /// Send the packaging request with this body.
    SubmitRequest { body: String },
    /// Wait `delay_seconds`, then poll the status endpoint with this body.
    PollStatus { body: String, delay_seconds: u64 },
    /// Retrieve the archive from this address; its body is the archive.
    Transmit { url: String },
    /// The archive from the last transmit answer is the result.
    Finish,
    /// Give up with this error.
    Fail { error: SyncError },
    /// Nothing: the fetch is already over.
    Idle,
}

/// The mathematical value of a fetch action.
pub enum FetchActionModel {
    SubmitRequest { body: Seq<char> },
    PollStatus { body: Seq<char>, delay_seconds: u64 },
    Transmit { url: Seq<char> },
    Finish,
    Fail { error: SyncError },
    Idle,
}

impl View for FetchAction {
    type V = FetchActionModel;

    open spec fn view(&self) -> FetchActionModel {
        match self {
            FetchAction::SubmitRequest { body } => FetchActionModel::SubmitRequest { body: body@ },
            FetchAction::PollStatus { body, delay_seconds } => FetchActionModel::PollStatus {
                body: body@,
                delay_seconds: *delay_seconds,
            },
            FetchAction::Transmit { url } => FetchActionModel::Transmit { url: url@ },
            FetchAction::Finish => FetchActionModel::Finish,
            FetchAction::Fail { error } => FetchActionModel::Fail { error: *error },
            FetchAction::Idle => FetchActionModel::Idle,
        }
    }
}

/// The state after `e` arrives in state `s`.
pub open spec fn next_state(s: FetchStateModel, e: FetchEventModel) -> FetchStateModel {
    match (s, e) {
        (FetchStateModel::Delivered, _) => FetchStateModel::Delivered,
        (FetchStateModel::Failed { error }, _) => FetchStateModel::Failed { error },
        (
            FetchStateModel::Requesting { mod_id, budget },
            FetchEventModel::RequestAnswered { uuid },
        ) => if plain_handle_seq(uuid) {
            FetchStateModel::Waiting { uuid, polls_left: budget }
        } else {
            FetchStateModel::Failed { error: SyncError::ProtocolError }
        },
        (
            FetchStateModel::Waiting { uuid, polls_left },
            FetchEventModel::StatusAnswered { status },
        ) => match status {
            Some(st) => if st == "prepared"@ {
                FetchStateModel::Ready { uuid }
            } else if polls_left == 0 {
                FetchStateModel::Failed { error: SyncError::Timeout }
            } else {
                FetchStateModel::Waiting { uuid, polls_left: (polls_left - 1) as u64 }
            },
            None => FetchStateModel::Failed { error: SyncError::ProtocolError },
        },
        (FetchStateModel::Ready { uuid: _ }, FetchEventModel::TransmitAnswered) => {
            FetchStateModel::Delivered
        },
        (_, FetchEventModel::NetworkFailed) => FetchStateModel::Failed {
            error: SyncError::RemoteUnavailable,
        },
        _ => FetchStateModel::Failed { error: SyncError::ProtocolError },
    }
}

/// The action `e` demands in state `s`.
pub open spec fn next_action(s: FetchStateModel, e: FetchEventModel) -> FetchActionModel {
    match (s, e) {
        (FetchStateModel::Delivered, _) => FetchActionModel::Idle,
        (FetchStateModel::Failed { error: _ }, _) => FetchActionModel::Idle,
        (
            FetchStateModel::Requesting { mod_id: _, budget: _ },
            FetchEventModel::RequestAnswered { uuid },
        ) => if plain_handle_seq(uuid) {
            FetchActionModel::PollStatus { body: status_body_seq(uuid), delay_seconds: 0 }
        } else {
            FetchActionModel::Fail { error: SyncError::ProtocolError }
        },
        (
            FetchStateModel::Waiting { uuid, polls_left },
            FetchEventModel::StatusAnswered { status },
        ) => match status {
            Some(st) => if st == "prepared"@ {
                FetchActionModel::Transmit { url: transmit_url_seq(uuid) }
            } else if polls_left == 0 {
                FetchActionModel::Fail { error: SyncError::Timeout }
            } else {
                FetchActionModel::PollStatus {
                    body: status_body_seq(uuid),
                    delay_seconds: POLL_INTERVAL_SECONDS,
                }
            },
            None => FetchActionModel::Fail { error: SyncError::ProtocolError },
        },
        (FetchStateModel::Ready { uuid: _ }, FetchEventModel::TransmitAnswered) => {
            FetchActionModel::Finish
        },
        (_, FetchEventModel::NetworkFailed) => FetchActionModel::Fail {
            error: SyncError::RemoteUnavailable,
        },
        _ => FetchActionModel::Fail { error: SyncError::ProtocolError },
    }
}

/// Begins a fetch for `mod_id`, allowing `budget` further polls after the
/// first before the wait is given up as `Timeout`.
pub fn fetch_start(mod_id: u64, budget: u64) -> (r: (FetchState, FetchAction))
    ensures
        r.0@ == (FetchStateModel::Requesting { mod_id, budget }),
        r.1@ == (FetchActionModel::SubmitRequest { body: request_body_seq(mod_id) }),
{
    let body = request_body_text(mod_id);
    (FetchState::Requesting { mod_id, budget }, FetchAction::SubmitRequest { body })
}

/// Advances the fetch by one answer from the service.
pub fn fetch_step(s: FetchState, e: FetchEvent) -> (r: (FetchState, FetchAction))
    ensures
        r.0@ == next_state(s@, e@),
        r.1@ == next_action(s@, e@),
{
    match (s, e) {
        (FetchState::Delivered, _) => (FetchState::Delivered, FetchAction::Idle),
        (FetchState::Failed { error }, _) => (FetchState::Failed { error }, FetchAction::Idle),
        (FetchState::Requesting { mod_id: _, budget }, FetchEvent::RequestAnswered { uuid }) => {
            if plain_handle(uuid.as_str()) {
                let body = status_body_text(uuid.as_str());
                (
                    FetchState::Waiting { uuid, polls_left: budget },
                    FetchAction::PollStatus { body, delay_seconds: 0 },
                )
            } else {
                (
                    FetchState::Failed { error: SyncError::ProtocolError },
                    FetchAction::Fail { error: SyncError::ProtocolError },
                )
            }
        },
        (FetchState::Waiting { uuid, polls_left }, FetchEvent::StatusAnswered { status }) => {
            match status {
                Some(st) => {
                    let prepared = String::from_str(prepared_label());
                    if st.eq(&prepared) {
                        let url = transmit_url_text(uuid.as_str());
                        (FetchState::Ready { uuid }, FetchAction::Transmit { url })
                    } else if polls_left == 0 {
                        (
                            FetchState::Failed { error: SyncError::Timeout },
                            FetchAction::Fail { error: SyncError::Timeout },
                        )
                    } else {
                        let body = status_body_text(uuid.as_str());
                        (
                            FetchState::Waiting { uuid, polls_left: polls_left - 1 },
                            FetchAction::PollStatus {
                                body,
                                delay_seconds: POLL_INTERVAL_SECONDS,
                            },
                        )
                    }
                },
                None => (
                    FetchState::Failed { error: SyncError::ProtocolError },
                    FetchAction::Fail { error: SyncError::ProtocolError },
                ),
            }
        },
        (FetchState::Ready { uuid: _ }, FetchEvent::TransmitAnswered) => {
            (FetchState::Delivered, FetchAction::Finish)
        },
        (_, FetchEvent::NetworkFailed) => (
            FetchState::Failed { error: SyncError::RemoteUnavailable },
            FetchAction::Fail { error: SyncError::RemoteUnavailable },
        ),
        _ => (
            FetchState::Failed { error: SyncError::ProtocolError },
            FetchAction::Fail { error: SyncError::ProtocolError },
        ),
    }
}

/// The state a run from `s` reaches after the answers in `events`.
pub open spec fn run_state(s: FetchStateModel, events: Seq<FetchEventModel>) -> FetchStateModel
    decreases events.len(),
{
    if events.len() == 0 {
        s
    } else {
        run_state(next_state(s, events[0]), events.drop_first())
    }
}

/// How many retrieval requests a run from `s` issues under `events`.
pub open spec fn transmit_count(s: FetchStateModel, events: Seq<FetchEventModel>) -> nat
    decreases events.len(),
{
    if events.len() == 0 {
        0
    } else {
        (if next_action(s, events[0]) is Transmit {
            1nat
        } else {
            0nat
        }) + transmit_count(next_state(s, events[0]), events.drop_first())
    }
}

/// Law: once the retrieval request is out (or the fetch over), no run issues
/// another one, whatever the service answers.
pub proof fn lemma_no_transmit_after_ready(s: FetchStateModel, events: Seq<FetchEventModel>)
    requires
        s is Ready || s is Delivered || s is Failed,
    ensures
        transmit_count(s, events) == 0,
    decreases events.len(),
{
    if events.len() > 0 {
        lemma_no_transmit_after_ready(next_state(s, events[0]), events.drop_first());
    }
}

/// Law: a fetch issues at most one retrieval request, whatever the service
/// answers and in whatever order.
pub proof fn lemma_transmit_at_most_once(s: FetchStateModel, events: Seq<FetchEventModel>)
    ensures
        transmit_count(s, events) <= 1,
    decreases events.len(),
{
    if events.len() > 0 {
        let ns = next_state(s, events[0]);
        if next_action(s, events[0]) is Transmit {
            lemma_no_transmit_after_ready(ns, events.drop_first());
        } else {
            lemma_transmit_at_most_once(ns, events.drop_first());
        }
    }
}

/// A row of status answers carrying the given labels, closed by one carrying
/// `prepared`.
pub open spec fn status_events(statuses: Seq<Seq<char>>) -> Seq<FetchEventModel> {
    Seq::new(
        statuses.len(),
        |i: int| FetchEventModel::StatusAnswered { status: Some(statuses[i]) },
    ).push(FetchEventModel::StatusAnswered { status: Some("prepared"@) })
}

/// Law: while polling, a row of not-yet-ready status labels within the poll
/// budget followed by `prepared` leads to exactly one retrieval request, and
/// the fetch stands ready with the same handle.
pub proof fn lemma_poll_until_prepared(uuid: Seq<char>, polls_left: u64, statuses: Seq<Seq<char>>)
    requires
        statuses.len() <= polls_left,
        forall|i: int| 0 <= i < statuses.len() ==> statuses[i] != "prepared"@,
    ensures
        transmit_count(FetchStateModel::Waiting { uuid, polls_left }, status_events(statuses))
            == 1,
        run_state(FetchStateModel::Waiting { uuid, polls_left }, status_events(statuses))
            == (FetchStateModel::Ready { uuid }),
    decreases statuses.len(),
{
    let events = status_events(statuses);
    let start = FetchStateModel::Waiting { uuid, polls_left };
    if statuses.len() == 0 {
        assert(events[0] == (FetchEventModel::StatusAnswered { status: Some("prepared"@) }));
        assert(next_state(start, events[0]) == (FetchStateModel::Ready { uuid }));
        assert(next_action(start, events[0]) == (FetchActionModel::Transmit {
            url: transmit_url_seq(uuid),
        }));
        assert(events.drop_first() =~= Seq::<FetchEventModel>::empty());
        lemma_no_transmit_after_ready(next_state(start, events[0]), events.drop_first());
        assert(run_state(start, events) == run_state(
            FetchStateModel::Ready { uuid },
            events.drop_first(),
        ));
        assert(run_state(FetchStateModel::Ready { uuid }, events.drop_first())
            == (FetchStateModel::Ready { uuid }));
    } else {
        assert(events[0] == (FetchEventModel::StatusAnswered { status: Some(statuses[0]) }));
        assert(statuses[0] != "prepared"@);
        let ns = next_state(start, events[0]);
        assert(ns == (FetchStateModel::Waiting { uuid, polls_left: (polls_left - 1) as u64 }));
        assert(!(next_action(start, events[0]) is Transmit));
        lemma_poll_until_prepared(uuid, (polls_left - 1) as u64, statuses.drop_first());
        assert(events.drop_first() =~= status_events(statuses.drop_first()));
        assert(run_state(start, events) == run_state(ns, events.drop_first()));
    }
}

} // verus!
