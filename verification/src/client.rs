//! The correlation runtime: pending cells, and the responder that assigns
//! identifiers to requests and routes what comes back.
//!
//! The responder is a state machine. Its state is the map from identifiers
//! to the cells of the requests in flight; each event gives the next state
//! and a `Reaction`, which the thread that owns the native client carries
//! out.

use crate::ident::{parse_correlation, random_id};
use crate::json::{extra_key, json_parse, Document, DocumentView};
use std::collections::HashMap;
use std::task::Waker;
use vstd::prelude::*;

verus! {

broadcast use vstd::std_specs::hash::group_hash_axioms;

/// The handle by which std wakes a suspended task, opaque to the verifier.
#[verifier::external_type_specification]
#[verifier::external_body]
pub struct ExWaker(std::task::Waker);

/// Wakes the task behind a waker with `std::task::Waker::wake_by_ref`.
/// Nothing is claimed: what waking does lies outside the library.
#[verifier::external_body]
fn wake(waker: &Waker) {
    waker.wake_by_ref()
}

/// What a poll of a pending cell gives.
#[derive(Debug)]
pub enum Polled {
    /// The response has arrived: a copy of it.
    Ready(Document),
    /// No response yet: the poller's waker was stored.
    Pending,
}

/// What the contracts see of a `Polled`.
pub enum PolledView {
    Ready(DocumentView),
    Pending,
}

impl View for Polled {
    type V = PolledView;

    open spec fn view(&self) -> PolledView {
        match self {
            Polled::Ready(document) => PolledView::Ready(document@),
            Polled::Pending => PolledView::Pending,
        }
    }
}

/// What the contracts see of a pending cell.
pub struct RequestDataView {
    /// The response, once it has arrived.
    pub resp: Option<DocumentView>,
    /// The waker of the task that polled last and found no response.
    pub waker: Option<Waker>,
}

impl RequestDataView {
    /// The cell after a response arrived: the response is stored, the waker
    /// stays.
    pub open spec fn resolve(self, resp: DocumentView) -> RequestDataView {
        RequestDataView { resp: Some(resp), waker: self.waker }
    }

    /// Whether the arrival of a response wakes a task: one has left its
    /// waker.
    pub open spec fn wakes(self) -> bool {
        self.waker is Some
    }

    /// The cell after a poll with `waker`: unchanged where the response is
    /// there, else holding `waker` in place of any earlier one.
    pub open spec fn poll(self, waker: Waker) -> RequestDataView {
        match self.resp {
            Some(_) => self,
            None => RequestDataView { resp: None, waker: Some(waker) },
        }
    }

    /// What a poll gives: the response where it is there.
    pub open spec fn polled(self) -> PolledView {
        match self.resp {
            Some(resp) => PolledView::Ready(resp),
            None => PolledView::Pending,
        }
    }
}

/// The cell of one request in flight: the response once it has arrived, and
/// the waker of the task that waits for it.
#[derive(Debug)]
pub struct RequestData {
    resp: Option<Document>,
    waker: Option<Waker>,
}

impl View for RequestData {
    type V = RequestDataView;

    closed spec fn view(&self) -> RequestDataView {
        RequestDataView {
            resp: match self.resp {
                Some(document) => Some(document@),
                None => None,
            },
            waker: self.waker,
        }
    }
}

impl RequestData {
    /// An empty cell: no response, no waker.
    pub fn new() -> (data: Self)
        ensures
            data@.resp is None,
            data@.waker is None,
    {
        RequestData { resp: None, waker: None }
    }

    /// One poll of the cell. Where the response is there, gives a copy of it
    /// and leaves the cell as it is. Else stores `waker`, in place of any
    /// earlier one, and reports that the response is pending.
    pub fn poll(&mut self, waker: Waker) -> (polled: Polled)
        ensures
            polled@ == old(self)@.polled(),
            final(self)@ == old(self)@.poll(waker),
    {
        match &self.resp {
            Some(document) => Polled::Ready(document.clone()),
            None => {
                self.waker = Some(waker);
                Polled::Pending
            },
        }
    }

    /// Stores the response and wakes the task that left its waker, if one
    /// did. The result says whether a task was woken.
    pub fn resolve(&mut self, resp: Document) -> (woken: bool)
        ensures
            final(self)@ == old(self)@.resolve(resp@),
            woken == old(self)@.wakes(),
    {
        self.resp = Some(resp);
        match &self.waker {
            Some(waker) => {
                wake(waker);
                true
            },
            None => false,
        }
    }
}

/// A request on its way to the responder: the cell that waits for the
/// response, and the request document, which is a JSON object.
#[derive(Debug)]
pub struct RequestDataToStream<C> {
    data: C,
    req: Document,
}

impl<C> RequestDataToStream<C> {
    #[verifier::type_invariant]
    spec fn request_is_object(&self) -> bool {
        self.req@.object
    }

    /// The cell that waits for the response.
    pub closed spec fn data(&self) -> C {
        self.data
    }

    /// The view of the request document.
    pub closed spec fn request(&self) -> DocumentView {
        self.req@
    }

    /// Pairs a cell with a request document. Only a JSON object can take
    /// the correlation member, so any other document is refused with `None`.
    pub fn new(data: C, req: Document) -> (request: Option<Self>)
        ensures
            request is Some <==> req@.object,
            request matches Some(r) ==> r.data() == data && r.request() == req@,
    {
        if req.is_object() {
            Some(RequestDataToStream { data, req })
        } else {
            None
        }
    }

    /// Takes the request apart again: the cell and the document.
    pub fn into_parts(self) -> (parts: (C, Document))
        ensures
            parts.0 == self.data(),
            parts.1@ == self.request(),
            parts.1@.object,
    {
        proof {
            use_type_invariant(&self);
        }
        (self.data, self.req)
    }
}

/// An event for the responder.
#[derive(Debug)]
pub enum JoinStreams<C> {
    /// A caller submits a request.
    NewRequest(RequestDataToStream<C>),
    /// The native client has handed out a message.
    NewResponse(String),
}

impl<C> JoinStreams<C> {
    /// The event for a request: the cell with its document. `None` where the
    /// document is no JSON object.
    pub fn request(data: C, req: Document) -> (event: Option<Self>)
        ensures
            event is Some <==> req@.object,
            event matches Some(e) ==> e matches JoinStreams::NewRequest(r) && r.data() == data
                && r.request() == req@,
    {
        match RequestDataToStream::new(data, req) {
            Some(request) => Some(JoinStreams::NewRequest(request)),
            None => None,
        }
    }

    /// The event for what one receive of the native client gave: a message
    /// is forwarded as it is, and a receive that timed out is no event.
    pub fn received(message: Option<String>) -> (event: Option<Self>)
        ensures
            match message {
                Some(text) => event matches Some(JoinStreams::NewResponse(t)) && t == text,
                None => event is None,
            },
    {
        match message {
            Some(text) => Some(JoinStreams::NewResponse(text)),
            None => None,
        }
    }
}

/// Why the responder drops an incoming message.
#[derive(Debug, Clone, Copy, PartialEq, Eq, Structural)]
pub enum Ignored {
    /// The text is no JSON.
    Malformed,
    /// The document holds no string under the correlation key.
    NoCorrelation,
    /// The string under the correlation key denotes no identifier.
    BadCorrelation,
    /// No request is pending under the identifier.
    UnknownId(u128),
}

/// What the responder asks of the thread that runs it.
#[derive(Debug)]
pub enum Reaction<C> {
    /// Send `text` to the native client. `overwritten` says that the request
    /// already held a member under the correlation key, which was replaced.
    Forward { text: String, overwritten: bool },
    /// The identifier drawn for the request is taken: the request comes
    /// back, to be submitted again.
    Collision(RequestDataToStream<C>),
    /// Hand the update to the handler.
    Update(Document),
    /// Store `resp` in the cell `data`, whose entry has left the map.
    Resolve { data: C, resp: Document },
    /// Drop the message.
    Ignore(Ignored),
}

/// What the contracts see of a `Reaction`.
pub enum ReactionView<C> {
    Forward { text: Seq<char>, overwritten: bool },
    Collision { data: C, request: DocumentView },
    Update(DocumentView),
    Resolve { data: C, resp: DocumentView },
    Ignore(Ignored),
}

impl<C> View for Reaction<C> {
    type V = ReactionView<C>;

    open spec fn view(&self) -> ReactionView<C> {
        match self {
            Reaction::Forward { text, overwritten } => ReactionView::Forward {
                text: text@,
                overwritten: *overwritten,
            },
            Reaction::Collision(request) => ReactionView::Collision {
                data: request.data(),
                request: request.request(),
            },
            Reaction::Update(document) => ReactionView::Update(document@),
            Reaction::Resolve { data, resp } => ReactionView::Resolve { data: *data, resp: resp@ },
            Reaction::Ignore(reason) => ReactionView::Ignore(*reason),
        }
    }
}

/// The pending requests after a request with the cell `data` was submitted
/// under the drawn identifier `id`: unchanged where `id` is taken, else with
/// `data` under `id`.
pub open spec fn request_pending<C>(pending: Map<u128, C>, id: u128, data: C) -> Map<u128, C> {
    if pending.contains_key(id) {
        pending
    } else {
        pending.insert(id, data)
    }
}

/// The reaction to a request submitted under the drawn identifier `id`: a
/// collision where `id` is taken; else the text of the request with `id`
/// under the correlation key is forwarded.
pub open spec fn request_reaction<C>(
    pending: Map<u128, C>,
    id: u128,
    data: C,
    request: DocumentView,
) -> ReactionView<C> {
    if pending.contains_key(id) {
        ReactionView::Collision { data, request }
    } else {
        ReactionView::Forward {
            text: request.with_correlation(id).text,
            overwritten: request.has(extra_key()),
        }
    }
}

/// The pending requests after a document that is no update came in: without
/// the entry of the identifier that the document carries, where there is
/// one; else unchanged.
pub open spec fn reply_pending<C>(pending: Map<u128, C>, resp: DocumentView) -> Map<u128, C> {
    match resp.correlation() {
        Some(id) => pending.remove(id),
        None => pending,
    }
}

/// The reaction to a document that is no update: the cell pending under the
/// identifier that the document carries is resolved with it; a document that
/// carries none, or one under which nothing is pending, is dropped.
pub open spec fn reply_reaction<C>(pending: Map<u128, C>, resp: DocumentView) -> ReactionView<C> {
    match resp.string(extra_key()) {
        None => ReactionView::Ignore(Ignored::NoCorrelation),
        Some(_) => match resp.correlation() {
            None => ReactionView::Ignore(Ignored::BadCorrelation),
            Some(id) => if pending.contains_key(id) {
                ReactionView::Resolve { data: pending[id], resp }
            } else {
                ReactionView::Ignore(Ignored::UnknownId(id))
            },
        },
    }
}

/// The pending requests after a document came in: an update leaves them as
/// they are.
pub open spec fn document_pending<C>(pending: Map<u128, C>, document: DocumentView) -> Map<
    u128,
    C,
> {
    if document.is_update() {
        pending
    } else {
        reply_pending(pending, document)
    }
}

/// The reaction to a document: an update goes to the handler, any other
/// document is a response.
pub open spec fn document_reaction<C>(
    pending: Map<u128, C>,
    document: DocumentView,
) -> ReactionView<C> {
    if document.is_update() {
        ReactionView::Update(document)
    } else {
        reply_reaction(pending, document)
    }
}

/// The pending requests after a message came in from the native client: a
/// text that is no JSON leaves them as they are.
pub open spec fn message_pending<C>(pending: Map<u128, C>, text: Seq<char>) -> Map<u128, C> {
    match json_parse(text) {
        Some(document) => document_pending(pending, document),
        None => pending,
    }
}

/// The reaction to a message from the native client: a text that is no JSON
/// is dropped, any other is handled as the document that it denotes.
pub open spec fn message_reaction<C>(pending: Map<u128, C>, text: Seq<char>) -> ReactionView<C> {
    match json_parse(text) {
        Some(document) => document_reaction(pending, document),
        None => ReactionView::Ignore(Ignored::Malformed),
    }
}

/// The responder: the map from the identifiers in flight to the cells that
/// wait for their responses.
#[derive(Debug)]
pub struct OneshotResponder<C> {
    wakers_map: HashMap<u128, C>,
}

impl<C> View for OneshotResponder<C> {
    type V = Map<u128, C>;

    closed spec fn view(&self) -> Map<u128, C> {
        self.wakers_map@
    }
}

impl<C> OneshotResponder<C> {
    /// A responder with no request in flight.
    pub fn new() -> (responder: Self)
        ensures
            responder@ == Map::<u128, C>::empty(),
    {
        OneshotResponder { wakers_map: HashMap::new() }
    }

    /// Whether a request is pending under `id`.
    pub fn is_pending(&self, id: u128) -> (pending: bool)
        ensures
            pending == self@.contains_key(id),
    {
        self.wakers_map.contains_key(&id)
    }

    /// How many requests are pending.
    pub fn pending_count(&self) -> (count: usize)
        ensures
            count == self@.len(),
    {
        self.wakers_map.len()
    }

    /// Submits a request under the drawn identifier `id`. Where `id` is
    /// taken, nothing changes and the request comes back. Else the cell is
    /// recorded under `id`, and the request document, with `id` under the
    /// correlation key, is to be forwarded: a document that carries `id`.
    pub fn register(&mut self, id: u128, request: RequestDataToStream<C>) -> (reaction: Reaction<C>)
        ensures
            final(self)@ == request_pending(old(self)@, id, request.data()),
            reaction@ == request_reaction(old(self)@, id, request.data(), request.request()),
            reaction@ is Forward ==> request.request().with_correlation(id).correlation() == Some(
                id,
            ),
    {
        proof {
            use_type_invariant(&request);
        }
        if self.wakers_map.contains_key(&id) {
            return Reaction::Collision(request);
        }
        let overwritten = request.req.has("@extra");
        let RequestDataToStream { data, req } = request;
        let mut document = req;
        document.set_correlation(id);
        let text = document.to_text();
        self.wakers_map.insert(id, data);
        Reaction::Forward { text, overwritten }
    }

    /// Submits a request under a fresh random identifier. What holds is what
    /// `register` states, of some identifier.
    pub fn handle_request(&mut self, request: RequestDataToStream<C>) -> (reaction: Reaction<C>)
        ensures
            exists|id: u128|
                {
                    &&& final(self)@ == #[trigger] request_pending(old(self)@, id, request.data())
                    &&& reaction@ == request_reaction(
                        old(self)@,
                        id,
                        request.data(),
                        request.request(),
                    )
                },
    {
        let id = random_id();
        self.register(id, request)
    }

    /// Handles a document that is no update. The cell pending under the
    /// identifier that the document carries leaves the map and is to be
    /// resolved with the document. A document that carries no identifier, or
    /// one under which nothing is pending, is dropped and changes nothing.
    pub fn handle_response(&mut self, resp: Document) -> (reaction: Reaction<C>)
        ensures
            final(self)@ == reply_pending(old(self)@, resp@),
            reaction@ == reply_reaction(old(self)@, resp@),
    {
        let id = match resp.string("@extra") {
            None => {
                return Reaction::Ignore(Ignored::NoCorrelation);
            },
            Some(text) => match parse_correlation(text) {
                None => {
                    return Reaction::Ignore(Ignored::BadCorrelation);
                },
                Some(id) => id,
            },
        };
        match self.wakers_map.remove(&id) {
            Some(data) => Reaction::Resolve { data, resp },
            None => {
                assert(old(self)@.remove(id) =~= old(self)@);
                Reaction::Ignore(Ignored::UnknownId(id))
            },
        }
    }

    /// Handles a document from the native client: an update goes to the
    /// handler and changes nothing, any other document is a response.
    pub fn handle_document(&mut self, document: Document) -> (reaction: Reaction<C>)
        ensures
            final(self)@ == document_pending(old(self)@, document@),
            reaction@ == document_reaction(old(self)@, document@),
    {
        if document.is_update() {
            Reaction::Update(document)
        } else {
            self.handle_response(document)
        }
    }

    /// Handles a message from the native client: a text that is no JSON is
    /// dropped and changes nothing, any other is handled as the document
    /// that it denotes.
    pub fn handle_message(&mut self, text: &str) -> (reaction: Reaction<C>)
        ensures
            final(self)@ == message_pending(old(self)@, text@),
            reaction@ == message_reaction(old(self)@, text@),
    {
        match Document::parse(text) {
            Some(document) => self.handle_document(document),
            None => Reaction::Ignore(Ignored::Malformed),
        }
    }

    /// One step of the responder: the next state and the reaction to one
    /// event.
    pub fn step(&mut self, event: JoinStreams<C>) -> (reaction: Reaction<C>)
        ensures
            match event {
                JoinStreams::NewRequest(request) => exists|id: u128|
                    {
                        &&& final(self)@ == #[trigger] request_pending(
                            old(self)@,
                            id,
                            request.data(),
                        )
                        &&& reaction@ == request_reaction(
                            old(self)@,
                            id,
                            request.data(),
                            request.request(),
                        )
                    },
                JoinStreams::NewResponse(text) => {
                    &&& final(self)@ == message_pending(old(self)@, text@)
                    &&& reaction@ == message_reaction(old(self)@, text@)
                },
            },
    {
        match event {
            JoinStreams::NewRequest(request) => self.handle_request(request),
            JoinStreams::NewResponse(text) => self.handle_message(text.as_str()),
        }
    }
}

} // verus!
