use vstd::prelude::*;
use vstd::string::*;

use crate::error::KvError;
use crate::pb::{CommandRequest, CommandResponse};
use crate::service::{answers, executes, Service};
use crate::storage::{Storage, StoreModel};

pub mod frame;
pub mod stream;

verus! {

/// What the server side of a connection observes next.
pub enum Inbound {
    /// A whole request arrived.
    Request(CommandRequest),
    /// The peer closed the connection between frames.
    Closed,
    /// Reading or decoding failed.
    Failed(KvError),
}

/// What the server side of a connection does next.
pub enum SessionAction {
    /// Send this response, then read the next request.
    Respond(CommandResponse),
    /// End the session; a transport error, if any, is handed out for logging.
    Close(Option<KvError>),
}

/// One step of a server session on a store holding `m`: it leaves `m2` and does `act`.
pub open spec fn session_step(m: StoreModel, ev: Inbound, m2: StoreModel, act: SessionAction) -> bool {
    match ev {
        Inbound::Request(req) => act matches SessionAction::Respond(resp) && executes(m, req, m2, resp@),
        Inbound::Closed => m2 == m && act == SessionAction::Close(None),
        Inbound::Failed(e) => m2 == m && act == SessionAction::Close(Some(e)),
    }
}

/// One step of a server session on a store that may fail: a request gets one
/// response, as `answers` allows; anything else closes the session and leaves the store.
pub open spec fn session_answers(m: StoreModel, ev: Inbound, m2: StoreModel, act: SessionAction) -> bool {
    match ev {
        Inbound::Request(req) => act matches SessionAction::Respond(resp) && answers(m, req, m2, resp@),
        Inbound::Closed => m2 == m && act == SessionAction::Close(None),
        Inbound::Failed(e) => m2 == m && act == SessionAction::Close(Some(e)),
    }
}

/// The server side of one connection: its byte stream and the shared service.
pub struct ProstServerStream<S, Svc> {
    pub inner: S,
    pub service: Svc,
}

impl<S, Svc> ProstServerStream<S, Svc> {
    pub fn new(stream: S, service: Svc) -> (r: Self)
        ensures
            r.inner == stream,
            r.service == service,
    {
        ProstServerStream { inner: stream, service }
    }
}

/// The server session's decision on one inbound event: a request is
/// dispatched and answered; the end of input or a failure closes the session.
pub fn serve_event<Store: Storage>(service: &mut Service<Store>, ev: Inbound) -> (r: SessionAction)
    requires
        old(service).store_view().inv(),
    ensures
        final(service).store_view().inv(),
        final(service).store_view().infallible() == old(service).store_view().infallible(),
        (ev is Request) == (r is Respond),
        session_answers(
            old(service).store_view().model(),
            ev,
            final(service).store_view().model(),
            r,
        ),
        old(service).store_view().infallible() ==> session_step(
            old(service).store_view().model(),
            ev,
            final(service).store_view().model(),
            r,
        ),
{
    match ev {
        Inbound::Request(cmd) => SessionAction::Respond(service.execute(cmd)),
        Inbound::Closed => SessionAction::Close(None),
        Inbound::Failed(e) => SessionAction::Close(Some(e)),
    }
}

/// The number of requests among `evs`.
pub open spec fn count_requests(evs: Seq<Inbound>) -> nat
    decreases evs.len(),
{
    if evs.len() == 0 {
        0
    } else {
        count_requests(evs.drop_last()) + if evs.last() is Request {
            1nat
        } else {
            0nat
        }
    }
}

/// The number of responses among `acts`.
pub open spec fn count_responses(acts: Seq<SessionAction>) -> nat
    decreases acts.len(),
{
    if acts.len() == 0 {
        0
    } else {
        count_responses(acts.drop_last()) + if acts.last() is Respond {
            1nat
        } else {
            0nat
        }
    }
}

/// A server session pairs responses with requests one to one and in order, on
/// any store: over any run of its steps, the i-th event is answered by the i-th
/// action, each request by exactly one response computed on the contents that
/// the earlier requests left, and there are as many responses as requests.
pub proof fn lemma_session_ordering(ms: Seq<StoreModel>, evs: Seq<Inbound>, acts: Seq<SessionAction>)
    requires
        ms.len() == evs.len() + 1,
        acts.len() == evs.len(),
        forall|i: int| 0 <= i < evs.len() ==> session_answers(ms[i], #[trigger] evs[i], ms[i + 1], acts[i]),
    ensures
        forall|i: int|
            0 <= i < evs.len() ==> match #[trigger] evs[i] {
                Inbound::Request(req) => acts[i] matches SessionAction::Respond(resp) && answers(
                    ms[i],
                    req,
                    ms[i + 1],
                    resp@,
                ),
                _ => acts[i] is Close && ms[i + 1] == ms[i],
            },
        count_responses(acts) == count_requests(evs),
    decreases evs.len(),
{
    if evs.len() > 0 {
        let n = evs.len() - 1;
        lemma_session_ordering(ms.drop_last(), evs.drop_last(), acts.drop_last());
        assert(evs.drop_last() == evs.subrange(0, n));
        assert(session_answers(ms[n], evs[n], ms[n + 1], acts[n]));
    }
}

/// The client side of one connection.
pub struct ProstClientStream<S> {
    pub inner: S,
}

impl<S> ProstClientStream<S> {
    pub fn new(stream: S) -> (r: Self)
        ensures
            r.inner == stream,
    {
        ProstClientStream { inner: stream }
    }
}

/// The client's outcome for one request, given what the connection produced
/// after it was sent: a response, an error, or nothing before the end of input.
pub fn client_outcome(reply: Option<Result<CommandResponse, KvError>>) -> (r: Result<
    CommandResponse,
    KvError,
>)
    ensures
        match reply {
            Some(x) => r == x,
            None => r matches Err(KvError::Internal(m)) && m@ == "no response"@,
        },
{
    match reply {
        Some(x) => x,
        None => Err(KvError::Internal(String::from_str("no response"))),
    }
}

} // verus!
