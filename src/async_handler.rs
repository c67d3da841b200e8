use vstd::prelude::*;

verus! {

/// State of the result channel: not yet set up, open towards the UI event
/// loop, or closed because the receiving end has been torn down.
#[derive(Clone, Copy, Debug, PartialEq, Eq, Structural)]
pub enum ChannelStatus {
    Uninitialized,
    Open,
    Closed,
}

/// The value a backend query hands back. One variant per kind of result, so
/// that a response site names the kind it expects instead of downcasting.
pub enum Payload {
    Flag(bool),
    Level(i8),
    Text(String),
    Names(Vec<String>),
}

pub ghost enum PayloadView {
    Flag(bool),
    Level(i8),
    Text(Seq<char>),
    Names(Seq<Seq<char>>),
}

impl View for Payload {
    type V = PayloadView;

    open spec fn view(&self) -> PayloadView {
        match self {
            Payload::Flag(b) => PayloadView::Flag(*b),
            Payload::Level(l) => PayloadView::Level(*l),
            Payload::Text(s) => PayloadView::Text(s@),
            Payload::Names(v) => PayloadView::Names(v@.map_values(|s: String| s@)),
        }
    }
}

/// The abstract outcome of a backend query: a payload, or `None` when the
/// backend call failed.
pub open spec fn outcome_view(outcome: Option<Payload>) -> Option<PayloadView> {
    match outcome {
        Some(p) => Some(p@),
        None => None,
    }
}

/// A tagged response: the identifier of the request it answers, with the
/// payload or the notice that the backend call failed.
pub enum AsyncHandlerResponse {
    Completed { id: String, payload: Payload },
    Failed { id: String },
}

pub ghost struct ResponseView {
    pub id: Seq<char>,
    pub payload: Option<PayloadView>,
}

impl View for AsyncHandlerResponse {
    type V = ResponseView;

    open spec fn view(&self) -> ResponseView {
        match self {
            AsyncHandlerResponse::Completed { id, payload } => ResponseView {
                id: id@,
                payload: Some(payload@),
            },
            AsyncHandlerResponse::Failed { id } => ResponseView { id: id@, payload: None },
        }
    }
}

impl AsyncHandlerResponse {
    pub fn id(&self) -> (r: &String)
        ensures
            r@ == self@.id,
    {
        match self {
            AsyncHandlerResponse::Completed { id, .. } => id,
            AsyncHandlerResponse::Failed { id } => id,
        }
    }
}

/// Why a request could not be dispatched.
#[derive(Clone, Copy, Debug, PartialEq, Eq, Structural)]
pub enum DispatchError {
    /// The result channel was never initialized: no response could be delivered.
    ChannelNotInitialized,
    /// Every request ticket has been handed out.
    TicketsExhausted,
}

/// A request that has been dispatched and has not completed yet.
pub struct PendingRequest {
    ticket: u64,
    id: String,
}

/// The abstract state of the dispatcher: the channel, the requests in
/// flight as (ticket, identifier), the responses delivered to the UI side and
/// not yet taken, and the next ticket to hand out.
pub ghost struct HandlerModel {
    pub channel: ChannelStatus,
    pub outstanding: Seq<(u64, Seq<char>)>,
    pub inbox: Seq<ResponseView>,
    pub next_ticket: u64,
}

impl HandlerModel {
    /// Tickets in flight are distinct and all below the next ticket.
    pub open spec fn wf(self) -> bool {
        &&& forall|i: int|
            0 <= i < self.outstanding.len() ==> #[trigger] self.outstanding[i].0 < self.next_ticket
        &&& forall|i: int, j: int|
            0 <= i < self.outstanding.len() && 0 <= j < self.outstanding.len() && i != j
                ==> #[trigger] self.outstanding[i].0 != #[trigger] self.outstanding[j].0
    }

    pub open spec fn initialized(self) -> bool {
        self.channel != ChannelStatus::Uninitialized
    }

    pub open spec fn after_init(self) -> HandlerModel {
        if self.channel == ChannelStatus::Uninitialized {
            HandlerModel { channel: ChannelStatus::Open, ..self }
        } else {
            self
        }
    }

    pub open spec fn dispatch_result(self) -> Result<u64, DispatchError> {
        if !self.initialized() {
            Err(DispatchError::ChannelNotInitialized)
        } else if self.next_ticket == u64::MAX {
            Err(DispatchError::TicketsExhausted)
        } else {
            Ok(self.next_ticket)
        }
    }

    pub open spec fn after_dispatch(self, id: Seq<char>) -> HandlerModel {
        if self.dispatch_result() is Ok {
            HandlerModel {
                outstanding: self.outstanding.push((self.next_ticket, id)),
                next_ticket: (self.next_ticket + 1) as u64,
                ..self
            }
        } else {
            self
        }
    }

    pub open spec fn is_outstanding(self, ticket: u64) -> bool {
        exists|k: int| 0 <= k < self.outstanding.len() && #[trigger] self.outstanding[k].0 == ticket
    }

    pub open spec fn position(self, ticket: u64) -> int {
        choose|k: int| 0 <= k < self.outstanding.len() && #[trigger] self.outstanding[k].0 == ticket
    }

    /// The request with this ticket leaves the set in flight; its response,
    /// tagged with the request's identifier, joins the inbox if the channel
    /// is open and is dropped if it is closed.
    pub open spec fn after_complete(self, ticket: u64, payload: Option<PayloadView>) -> HandlerModel {
        if self.is_outstanding(ticket) {
            let k = self.position(ticket);
            HandlerModel {
                outstanding: self.outstanding.remove(k),
                inbox: if self.channel == ChannelStatus::Open {
                    self.inbox.push(ResponseView { id: self.outstanding[k].1, payload })
                } else {
                    self.inbox
                },
                ..self
            }
        } else {
            self
        }
    }

    pub open spec fn after_receive(self) -> HandlerModel {
        if self.inbox.len() > 0 {
            HandlerModel { inbox: self.inbox.drop_first(), ..self }
        } else {
            self
        }
    }

    pub open spec fn after_close(self) -> HandlerModel {
        if self.channel == ChannelStatus::Open {
            HandlerModel { channel: ChannelStatus::Closed, inbox: Seq::empty(), ..self }
        } else {
            self
        }
    }
}

/// Dispatches tagged requests and collects their tagged responses for the UI
/// thread. The background runtime that runs the work reports each completion
/// through `complete`; the UI thread takes responses with `next_response`.
pub struct AsyncHandler {
    channel: ChannelStatus,
    outstanding: Vec<PendingRequest>,
    inbox: Vec<AsyncHandlerResponse>,
    next_ticket: u64,
}

impl View for AsyncHandler {
    type V = HandlerModel;

    closed spec fn view(&self) -> HandlerModel {
        HandlerModel {
            channel: self.channel,
            outstanding: self.outstanding@.map_values(|r: PendingRequest| (r.ticket, r.id@)),
            inbox: self.inbox@.map_values(|r: AsyncHandlerResponse| r@),
            next_ticket: self.next_ticket,
        }
    }
}

impl AsyncHandler {
    pub fn new() -> (r: AsyncHandler)
        ensures
            r@.channel == ChannelStatus::Uninitialized,
            r@.outstanding.len() == 0,
            r@.inbox.len() == 0,
            r@.next_ticket == 0,
            r@.wf(),
    {
        AsyncHandler {
            channel: ChannelStatus::Uninitialized,
            outstanding: Vec::new(),
            inbox: Vec::new(),
            next_ticket: 0,
        }
    }

    pub fn channel(&self) -> (r: ChannelStatus)
        ensures
            r == self@.channel,
    {
        self.channel
    }

    pub fn outstanding_count(&self) -> (r: usize)
        ensures
            r == self@.outstanding.len(),
    {
        self.outstanding.len()
    }

    pub fn pending_responses(&self) -> (r: usize)
        ensures
            r == self@.inbox.len(),
    {
        self.inbox.len()
    }

    /// Sets up the result channel. Only the first call takes effect.
    pub fn init(&mut self)
        requires
            old(self)@.wf(),
        ensures
            final(self)@ == old(self)@.after_init(),
            final(self)@.wf(),
    {
        if self.channel == ChannelStatus::Uninitialized {
            self.channel = ChannelStatus::Open;
        }
    }

    /// Registers a request tagged with `id` and returns the ticket under which
    /// the background runtime reports its completion.
    pub fn call(&mut self, id: &str) -> (r: Result<u64, DispatchError>)
        requires
            old(self)@.wf(),
        ensures
            r == old(self)@.dispatch_result(),
            final(self)@ == old(self)@.after_dispatch(id@),
            final(self)@.wf(),
    {
        if self.channel == ChannelStatus::Uninitialized {
            return Err(DispatchError::ChannelNotInitialized);
        }
        if self.next_ticket == u64::MAX {
            return Err(DispatchError::TicketsExhausted);
        }
        let ticket = self.next_ticket;
        let ghost before = self@;
        self.outstanding.push(PendingRequest { ticket, id: id.to_owned() });
        self.next_ticket = ticket + 1;
        assert(self@.outstanding =~= before.outstanding.push((ticket, id@)));
        Ok(ticket)
    }

    fn find_ticket(&self, ticket: u64) -> (r: Option<usize>)
        ensures
            match r {
                Some(k) => k < self.outstanding@.len() && self.outstanding@[k as int].ticket == ticket,
                None => forall|j: int|
                    0 <= j < self.outstanding@.len() ==> #[trigger] self.outstanding@[j].ticket != ticket,
            },
    {
        let n = self.outstanding.len();
        let mut k: usize = 0;
        while k < n
            invariant
                n == self.outstanding@.len(),
                k <= n,
                forall|j: int| 0 <= j < k ==> #[trigger] self.outstanding@[j].ticket != ticket,
            decreases n - k,
        {
            if self.outstanding[k].ticket == ticket {
                return Some(k);
            }
            k = k + 1;
        }
        None
    }

    /// Reports that the request with `ticket` has finished, with its payload,
    /// or `None` when the backend call failed. Returns whether the ticket was
    /// in flight. The response is posted on the channel when it is open and
    /// dropped without error when its receiving end is gone.
    pub fn complete(&mut self, ticket: u64, outcome: Option<Payload>) -> (r: bool)
        requires
            old(self)@.wf(),
        ensures
            r == old(self)@.is_outstanding(ticket),
            final(self)@ == old(self)@.after_complete(ticket, outcome_view(outcome)),
            final(self)@.wf(),
    {
        let ghost before = self@;
        match self.find_ticket(ticket) {
            None => {
                assert(!before.is_outstanding(ticket)) by {
                    if before.is_outstanding(ticket) {
                        let k = choose|k: int|
                            0 <= k < before.outstanding.len() && #[trigger] before.outstanding[k].0
                                == ticket;
                        assert(self.outstanding@[k].ticket != ticket);
                    }
                }
                false
            },
            Some(k) => {
                assert(before.outstanding[k as int].0 == ticket);
                assert(before.is_outstanding(ticket));
                let ghost p = before.position(ticket);
                assert(p == k as int);
                let request = self.outstanding.remove(k);
                assert(self@.outstanding =~= before.outstanding.remove(k as int));
                if self.channel == ChannelStatus::Open {
                    let response = match outcome {
                        Some(payload) => AsyncHandlerResponse::Completed { id: request.id, payload },
                        None => AsyncHandlerResponse::Failed { id: request.id },
                    };
                    self.inbox.push(response);
                    assert(self@.inbox =~= before.inbox.push(
                        ResponseView { id: before.outstanding[k as int].1, payload: outcome_view(outcome) },
                    ));
                }
                assert(self@ == before.after_complete(ticket, outcome_view(outcome)));
                true
            },
        }
    }

    /// Takes the oldest response delivered to the UI side, if any.
    pub fn next_response(&mut self) -> (r: Option<AsyncHandlerResponse>)
        requires
            old(self)@.wf(),
        ensures
            match r {
                Some(resp) => old(self)@.inbox.len() > 0 && resp@ == old(self)@.inbox[0],
                None => old(self)@.inbox.len() == 0,
            },
            final(self)@ == old(self)@.after_receive(),
            final(self)@.wf(),
    {
        if self.inbox.len() == 0 {
            return None;
        }
        let ghost before = self@;
        let resp = self.inbox.remove(0);
        assert(self@.inbox =~= before.inbox.drop_first());
        Some(resp)
    }

    /// The UI side has been torn down: responses still waiting are dropped,
    /// and later completions are discarded without error.
    pub fn close(&mut self)
        requires
            old(self)@.wf(),
        ensures
            final(self)@ == old(self)@.after_close(),
            final(self)@.wf(),
    {
        if self.channel == ChannelStatus::Open {
            self.channel = ChannelStatus::Closed;
            self.inbox = Vec::new();
            assert(self@.inbox =~= Seq::<ResponseView>::empty());
        }
    }
}

/// What a response site makes of an incoming response.
pub enum Routed<'a> {
    /// The response answers another request; the site leaves it alone.
    Ignored,
    /// The response answers this site's request, with this payload.
    Delivered(&'a Payload),
    /// The response answers this site's request, whose backend call failed.
    Failed,
}

/// A response is meant for the site that expects its identifier.
pub open spec fn routes_to(response: ResponseView, expected: Seq<char>) -> bool {
    response.id == expected
}

/// Matches `message` against the identifier a response site expects.
pub fn async_response<'a>(message: &'a AsyncHandlerResponse, expected: &str) -> (r: Routed<'a>)
    ensures
        match r {
            Routed::Ignored => !routes_to(message@, expected@),
            Routed::Delivered(p) => routes_to(message@, expected@) && message@.payload == Some(p@),
            Routed::Failed => routes_to(message@, expected@) && message@.payload is None,
        },
{
    let wanted = expected.to_owned();
    match message {
        AsyncHandlerResponse::Completed { id, payload } => {
            if *id == wanted {
                Routed::Delivered(payload)
            } else {
                Routed::Ignored
            }
        },
        AsyncHandlerResponse::Failed { id } => {
            if *id == wanted {
                Routed::Failed
            } else {
                Routed::Ignored
            }
        },
    }
}

} // verus!
