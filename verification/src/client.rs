//! One request/response exchange, as a sequence of decisions.
//!
//! The client does no I/O. It says what is to be done next on the
//! transport (an `Action`), and is told what came of it (a
//! `TransportEvent`). Whoever owns the transport performs the actions, one
//! at a time, until the client finishes the exchange.
use vstd::prelude::*;
use vstd::slice::slice_to_vec;
use crate::definitions::{NegativeResponseCode, NEGATIVE_RESPONSE_SID};
use crate::error::{NrcData, UdsCommunicationError, UdsError, UdsErrorView};
use crate::negative_response::{negative_response_error, parse_for_error};

verus! {

/// How much patience an exchange has with the two negative responses that
/// ask for it.
#[derive(Debug, Clone, Copy, PartialEq, Eq, Structural)]
pub struct RetryPolicy {
    /// How many times at most a request is sent again because the server
    /// answered `BusyRepeatRequest`.
    pub busy_repeat_limit: u32,
    /// How many times at most the client goes on waiting because the
    /// server answered `RequestCorrectlyReceivedResponsePending`.
    pub response_pending_limit: u32,
}

impl Default for RetryPolicy {
    /// A policy for a server that is busy now and then: the request is
    /// sent again up to three times, and up to ten announcements of the
    /// response are waited out.
    fn default() -> (policy: RetryPolicy)
        ensures
            policy == (RetryPolicy { busy_repeat_limit: 3, response_pending_limit: 10 }),
    {
        RetryPolicy { busy_repeat_limit: 3, response_pending_limit: 10 }
    }
}

/// Where an exchange stands.
#[derive(Debug, Clone, Copy, PartialEq, Eq, Structural)]
pub enum ExchangeState {
    /// No exchange has been started yet.
    Idle,
    /// The request is being sent for the first time.
    Sending,
    /// The request was sent; its response is being waited for.
    AwaitingResponse,
    /// The server was busy; the request is being sent again.
    Retrying,
    /// The server announced its response; it is being waited for.
    Pending,
    /// The exchange ended with a response that is no negative response.
    Done,
    /// The exchange ended with a failure.
    Failed,
}

impl ExchangeState {
    /// The states in which the outcome of a send is waited for.
    pub open spec fn is_sending(self) -> bool {
        self == ExchangeState::Sending || self == ExchangeState::Retrying
    }

    /// The states in which a response is waited for.
    pub open spec fn is_receiving(self) -> bool {
        self == ExchangeState::AwaitingResponse || self == ExchangeState::Pending
    }

    /// The states in which an exchange is under way.
    pub open spec fn in_flight(self) -> bool {
        self.is_sending() || self.is_receiving()
    }
}

/// What the transport reports back.
#[derive(Debug, PartialEq)]
pub enum TransportEvent {
    /// The message handed over with `Action::Send` was sent.
    Sent,
    /// A message arrived.
    Received(Vec<u8>),
    /// Sending or receiving failed.
    Failed(UdsCommunicationError),
}

/// `TransportEvent` as a mathematical value.
pub enum TransportEventView {
    Sent,
    Received(Seq<u8>),
    Failed(UdsCommunicationError),
}

impl View for TransportEvent {
    type V = TransportEventView;

    open spec fn view(&self) -> TransportEventView {
        match self {
            TransportEvent::Sent => TransportEventView::Sent,
            TransportEvent::Received(raw_response) => TransportEventView::Received(raw_response@),
            TransportEvent::Failed(error) => TransportEventView::Failed(*error),
        }
    }
}

/// What is to be done next.
#[derive(Debug, PartialEq)]
pub enum Action {
    /// Send these bytes; report `Sent` or `Failed`.
    Send(Vec<u8>),
    /// Wait for a message; report `Received` or `Failed`.
    Receive,
    /// The exchange is over, with the response as it was received or with
    /// the failure.
    Finish(Result<Vec<u8>, UdsError>),
}

/// `Action` as a mathematical value.
pub enum ActionView {
    Send(Seq<u8>),
    Receive,
    Finish(Result<Seq<u8>, UdsErrorView>),
}

impl View for Action {
    type V = ActionView;

    open spec fn view(&self) -> ActionView {
        match self {
            Action::Send(request) => ActionView::Send(request@),
            Action::Receive => ActionView::Receive,
            Action::Finish(Ok(raw_response)) => ActionView::Finish(Ok(raw_response@)),
            Action::Finish(Err(error)) => ActionView::Finish(Err(error@)),
        }
    }
}

/// An exchange as a mathematical value.
pub struct Exchange {
    /// Where the exchange stands.
    pub state: ExchangeState,
    /// The request of the exchange under way.
    pub request: Seq<u8>,
    /// How many more times the request may be sent again.
    pub busy_repeats_left: nat,
    /// How many more times the client may go on waiting.
    pub pending_waits_left: nat,
}

impl Exchange {
    /// The exchange, ended with `error`.
    pub open spec fn fail(self, error: UdsErrorView) -> (Exchange, ActionView) {
        (Exchange { state: ExchangeState::Failed, ..self }, ActionView::Finish(Err(error)))
    }

    /// An exchange for `request`, about to begin, and its first action. An
    /// empty request is not sent: it fails with `RequestEmpty` at once.
    pub open spec fn begin(policy: RetryPolicy, request: Seq<u8>) -> (Exchange, ActionView) {
        let exchange = Exchange {
            state: ExchangeState::Sending,
            request,
            busy_repeats_left: policy.busy_repeat_limit as nat,
            pending_waits_left: policy.response_pending_limit as nat,
        };
        if request.len() == 0 {
            exchange.fail(UdsErrorView::RequestEmpty)
        } else {
            (exchange, ActionView::Send(request))
        }
    }

    /// Whether `event` is one that the exchange waits for.
    pub open spec fn expects(self, event: TransportEventView) -> bool {
        match event {
            TransportEventView::Sent => self.state.is_sending(),
            TransportEventView::Received(_) => self.state.is_receiving(),
            TransportEventView::Failed(_) => self.state.in_flight(),
        }
    }

    /// The exchange after a negative response of the server that rejects
    /// the service of the request, and the next action.
    ///
    /// `BusyRepeatRequest` has the same request sent again, and
    /// `RequestCorrectlyReceivedResponsePending` has the client wait on
    /// without sending, each as long as the policy allows. Once it does
    /// not, and for every other reason, the exchange fails with the
    /// negative response.
    pub open spec fn on_rejection(self, nrc: NrcData) -> (Exchange, ActionView) {
        match nrc.nrc {
            NegativeResponseCode::BusyRepeatRequest => if self.busy_repeats_left > 0 {
                (
                    Exchange {
                        state: ExchangeState::Retrying,
                        busy_repeats_left: (self.busy_repeats_left - 1) as nat,
                        ..self
                    },
                    ActionView::Send(self.request),
                )
            } else {
                self.fail(UdsErrorView::NRC { nrc })
            },
            NegativeResponseCode::RequestCorrectlyReceivedResponsePending => if
                self.pending_waits_left > 0 {
                (
                    Exchange {
                        state: ExchangeState::Pending,
                        pending_waits_left: (self.pending_waits_left - 1) as nat,
                        ..self
                    },
                    ActionView::Receive,
                )
            } else {
                self.fail(UdsErrorView::NRC { nrc })
            },
            _ => self.fail(UdsErrorView::NRC { nrc }),
        }
    }

    /// The exchange after `raw_response` arrived, and the next action.
    ///
    /// A response that is no negative response ends the exchange and is
    /// handed out as it came. A negative response that names another
    /// service than that of the request fails with `SidMismatch`. What
    /// cannot be decoded fails with the decoder's failure.
    pub open spec fn on_response(self, raw_response: Seq<u8>) -> (Exchange, ActionView) {
        match negative_response_error(raw_response) {
            None => (
                Exchange { state: ExchangeState::Done, ..self },
                ActionView::Finish(Ok(raw_response)),
            ),
            Some(UdsErrorView::NRC { nrc }) => if nrc.rejected_sid != self.request[0] {
                self.fail(
                    UdsErrorView::SidMismatch {
                        expected: self.request[0],
                        received: nrc.rejected_sid,
                        raw_message: raw_response,
                    },
                )
            } else {
                self.on_rejection(nrc)
            },
            Some(error) => self.fail(error),
        }
    }

    /// The exchange after `event`, and the next action. A failure of the
    /// transport ends the exchange.
    pub open spec fn step(self, event: TransportEventView) -> (Exchange, ActionView) {
        match event {
            TransportEventView::Sent => (
                Exchange { state: ExchangeState::AwaitingResponse, ..self },
                ActionView::Receive,
            ),
            TransportEventView::Received(raw_response) => self.on_response(raw_response),
            TransportEventView::Failed(error) => self.fail(
                UdsErrorView::CommunicationError { error },
            ),
        }
    }
}

/// The client side of the protocol: it runs one exchange at a time.
pub struct UdsClient {
    policy: RetryPolicy,
    state: ExchangeState,
    request: Vec<u8>,
    busy_repeats_left: u32,
    pending_waits_left: u32,
}

impl View for UdsClient {
    type V = Exchange;

    closed spec fn view(&self) -> Exchange {
        Exchange {
            state: self.state,
            request: self.request@,
            busy_repeats_left: self.busy_repeats_left as nat,
            pending_waits_left: self.pending_waits_left as nat,
        }
    }
}

impl UdsClient {
    /// The policy that the client was made with.
    pub closed spec fn spec_policy(&self) -> RetryPolicy {
        self.policy
    }

    /// What holds of every client: an exchange under way has a request of
    /// at least one byte.
    pub closed spec fn well_formed(&self) -> bool {
        self.state.in_flight() ==> self.request@.len() > 0
    }

    /// A client that has not started an exchange yet.
    pub fn new(policy: RetryPolicy) -> (client: UdsClient)
        ensures
            client.well_formed(),
            client.spec_policy() == policy,
            client@.state == ExchangeState::Idle,
    {
        UdsClient {
            policy,
            state: ExchangeState::Idle,
            request: Vec::new(),
            busy_repeats_left: 0,
            pending_waits_left: 0,
        }
    }

    /// The policy that the client was made with.
    pub fn policy(&self) -> (policy: RetryPolicy)
        ensures
            policy == self.spec_policy(),
    {
        self.policy
    }

    /// Where the exchange stands.
    pub fn state(&self) -> (state: ExchangeState)
        ensures
            state == self@.state,
    {
        self.state
    }

    /// Whether an exchange is under way.
    pub fn is_in_flight(&self) -> (in_flight: bool)
        ensures
            in_flight == self@.state.in_flight(),
    {
        matches!(
            self.state,
            ExchangeState::Sending | ExchangeState::Retrying | ExchangeState::AwaitingResponse
                | ExchangeState::Pending
        )
    }

    /// Whether `event` is one that the exchange waits for.
    pub fn expects(&self, event: &TransportEvent) -> (expected: bool)
        ensures
            expected == self@.expects(event@),
    {
        let sending = matches!(self.state, ExchangeState::Sending | ExchangeState::Retrying);
        let receiving = matches!(
            self.state,
            ExchangeState::AwaitingResponse | ExchangeState::Pending
        );
        match event {
            TransportEvent::Sent => sending,
            TransportEvent::Received(_) => receiving,
            TransportEvent::Failed(_) => sending || receiving,
        }
    }

    /// Begins the exchange for `request` and says what to do first: send
    /// the request, or, for an empty request, nothing at all.
    pub fn send_and_receive(&mut self, request: &[u8]) -> (action: Action)
        requires
            old(self).well_formed(),
            !old(self)@.state.in_flight(),
        ensures
            final(self).well_formed(),
            final(self).spec_policy() == old(self).spec_policy(),
            (final(self)@, action@) == Exchange::begin(old(self).spec_policy(), request@),
    {
        self.request = slice_to_vec(request);
        self.busy_repeats_left = self.policy.busy_repeat_limit;
        self.pending_waits_left = self.policy.response_pending_limit;
        if request.len() == 0 {
            self.state = ExchangeState::Failed;
            return Action::Finish(Err(UdsError::RequestEmpty));
        }
        self.state = ExchangeState::Sending;
        Action::Send(slice_to_vec(request))
    }

    /// Takes in what the transport reports and says what to do next.
    pub fn handle(&mut self, event: TransportEvent) -> (action: Action)
        requires
            old(self).well_formed(),
            old(self)@.expects(event@),
        ensures
            final(self).well_formed(),
            final(self).spec_policy() == old(self).spec_policy(),
            (final(self)@, action@) == old(self)@.step(event@),
    {
        match event {
            TransportEvent::Sent => {
                self.state = ExchangeState::AwaitingResponse;
                Action::Receive
            },
            TransportEvent::Failed(error) => {
                self.state = ExchangeState::Failed;
                Action::Finish(Err(UdsError::CommunicationError { error }))
            },
            TransportEvent::Received(raw_response) => self.handle_response(raw_response),
        }
    }

    /// Takes in a response and says what to do next.
    fn handle_response(&mut self, raw_response: Vec<u8>) -> (action: Action)
        requires
            old(self).well_formed(),
            old(self)@.state.is_receiving(),
        ensures
            final(self).well_formed(),
            final(self).spec_policy() == old(self).spec_policy(),
            (final(self)@, action@) == old(self)@.on_response(raw_response@),
    {
        let nrc = match parse_for_error(raw_response.as_slice()) {
            Ok(()) => {
                self.state = ExchangeState::Done;
                return Action::Finish(Ok(raw_response));
            },
            Err(UdsError::NRC { nrc }) => nrc,
            Err(error) => {
                self.state = ExchangeState::Failed;
                return Action::Finish(Err(error));
            },
        };
        let expected: u8 = self.request[0];
        if nrc.rejected_sid != expected {
            self.state = ExchangeState::Failed;
            return Action::Finish(
                Err(
                    UdsError::SidMismatch {
                        expected,
                        received: nrc.rejected_sid,
                        raw_message: raw_response,
                    },
                ),
            );
        }
        match nrc.nrc {
            NegativeResponseCode::BusyRepeatRequest => {
                if self.busy_repeats_left > 0 {
                    self.busy_repeats_left = self.busy_repeats_left - 1;
                    self.state = ExchangeState::Retrying;
                    return Action::Send(slice_to_vec(self.request.as_slice()));
                }
            },
            NegativeResponseCode::RequestCorrectlyReceivedResponsePending => {
                if self.pending_waits_left > 0 {
                    self.pending_waits_left = self.pending_waits_left - 1;
                    self.state = ExchangeState::Pending;
                    return Action::Receive;
                }
            },
            _ => {},
        }
        self.state = ExchangeState::Failed;
        Action::Finish(Err(UdsError::NRC { nrc }))
    }
}

/// An exchange begins with its request being sent as it is; only for a
/// request without a byte nothing is sent, and the exchange is over at
/// once.
pub proof fn lemma_exchange_begins_by_sending(policy: RetryPolicy, request: Seq<u8>)
    ensures
        request.len() > 0 ==> Exchange::begin(policy, request).1 == ActionView::Send(request)
            && Exchange::begin(policy, request).0.state == ExchangeState::Sending,
        request.len() == 0 ==> Exchange::begin(policy, request).1 == ActionView::Finish(
            Err(UdsErrorView::RequestEmpty),
        ) && Exchange::begin(policy, request).0.state == ExchangeState::Failed,
        Exchange::begin(policy, request).0.request == request,
{
}

/// Whatever the transport reports, the exchange keeps its request, and
/// what it has sent is that request and nothing else. A response that it
/// hands out is no negative response.
pub proof fn lemma_only_the_request_is_sent(exchange: Exchange, event: TransportEventView)
    ensures
        exchange.step(event).0.request == exchange.request,
        exchange.step(event).1 matches ActionView::Send(bytes) ==> bytes == exchange.request,
        exchange.step(event).1 matches ActionView::Finish(Ok(raw_response)) ==> event
            == TransportEventView::Received(raw_response) && raw_response.len() > 0
            && raw_response[0] != NEGATIVE_RESPONSE_SID,
{
}

impl Exchange {
    /// How many reports of the transport the exchange can take in at most
    /// before it is over.
    pub open spec fn events_left(self) -> nat {
        if self.state.is_sending() {
            2 + 2 * self.busy_repeats_left + self.pending_waits_left
        } else if self.state.is_receiving() {
            1 + 2 * self.busy_repeats_left + self.pending_waits_left
        } else {
            0
        }
    }
}

/// Every exchange ends: each report of the transport that the exchange
/// waits for lowers `events_left`. The next action tells where the
/// exchange stands: it is over exactly when the action is `Finish`, and it
/// waits for the outcome of a send or for a response exactly when the
/// action is `Send` or `Receive`.
pub proof fn lemma_exchange_ends(exchange: Exchange, event: TransportEventView)
    requires
        exchange.expects(event),
    ensures
        exchange.step(event).0.events_left() < exchange.events_left(),
        exchange.step(event).1 is Finish <==> !exchange.step(event).0.state.in_flight(),
        exchange.step(event).1 is Send <==> exchange.step(event).0.state.is_sending(),
        exchange.step(event).1 is Receive <==> exchange.step(event).0.state.is_receiving(),
{
}

/// Whether `raw_response` is a negative response by which the server
/// rejects the service `sid` for the reason `nrc`.
pub open spec fn rejects(raw_response: Seq<u8>, sid: u8, nrc: NegativeResponseCode) -> bool {
    &&& raw_response.len() >= 3
    &&& raw_response[0] == NEGATIVE_RESPONSE_SID
    &&& raw_response[1] == sid
    &&& raw_response[2] == nrc.spec_to_u8()
}

impl Exchange {
    /// The exchange after each of `responses` arrived in turn and, after
    /// each, the transport reported that what it was given was sent.
    pub open spec fn after_repeats(self, responses: Seq<Seq<u8>>) -> Exchange
        decreases responses.len(),
    {
        if responses.len() == 0 {
            self
        } else {
            self.after_repeats(responses.drop_last()).step(
                TransportEventView::Received(responses.last()),
            ).0.step(TransportEventView::Sent).0
        }
    }

    /// The exchange after each of `responses` arrived in turn.
    pub open spec fn after_responses(self, responses: Seq<Seq<u8>>) -> Exchange
        decreases responses.len(),
    {
        if responses.len() == 0 {
            self
        } else {
            self.after_responses(responses.drop_last()).step(
                TransportEventView::Received(responses.last()),
            ).0
        }
    }
}

/// While the server answers `BusyRepeatRequest`, the client has the very
/// bytes of the request sent again, as often as the policy allows; the
/// next `BusyRepeatRequest` after that ends the exchange with that
/// negative response.
///
/// `responses` are the busy responses answered so far by sending again,
/// `next` is one more.
pub proof fn lemma_busy_repeat_request(
    exchange: Exchange,
    responses: Seq<Seq<u8>>,
    next: Seq<u8>,
)
    requires
        exchange.state.is_receiving(),
        exchange.request.len() > 0,
        responses.len() <= exchange.busy_repeats_left,
        forall|i: int|
            0 <= i < responses.len() ==> rejects(
                #[trigger] responses[i],
                exchange.request[0],
                NegativeResponseCode::BusyRepeatRequest,
            ),
        rejects(next, exchange.request[0], NegativeResponseCode::BusyRepeatRequest),
    ensures
        exchange.after_repeats(responses) == (Exchange {
            state: if responses.len() == 0 {
                exchange.state
            } else {
                ExchangeState::AwaitingResponse
            },
            busy_repeats_left: (exchange.busy_repeats_left - responses.len()) as nat,
            ..exchange
        }),
        responses.len() < exchange.busy_repeats_left ==> exchange.after_repeats(responses).step(
            TransportEventView::Received(next),
        ).1 == ActionView::Send(exchange.request),
        responses.len() == exchange.busy_repeats_left ==> exchange.after_repeats(responses).step(
            TransportEventView::Received(next),
        ) == exchange.after_repeats(responses).fail(
            UdsErrorView::NRC {
                nrc: NrcData {
                    rejected_sid: exchange.request[0],
                    nrc: NegativeResponseCode::BusyRepeatRequest,
                },
            },
        ),
    decreases responses.len(),
{
    if responses.len() > 0 {
        lemma_busy_repeat_request(exchange, responses.drop_last(), responses.last());
    }
}

/// While the server answers `RequestCorrectlyReceivedResponsePending`, the
/// client waits on without sending anything, as often as the policy
/// allows; the next such answer after that ends the exchange with that
/// negative response.
///
/// `responses` are the pending responses waited out so far, `next` is one
/// more.
pub proof fn lemma_response_pending(exchange: Exchange, responses: Seq<Seq<u8>>, next: Seq<u8>)
    requires
        exchange.state.is_receiving(),
        exchange.request.len() > 0,
        responses.len() <= exchange.pending_waits_left,
        forall|i: int|
            0 <= i < responses.len() ==> rejects(
                #[trigger] responses[i],
                exchange.request[0],
                NegativeResponseCode::RequestCorrectlyReceivedResponsePending,
            ),
        rejects(
            next,
            exchange.request[0],
            NegativeResponseCode::RequestCorrectlyReceivedResponsePending,
        ),
    ensures
        exchange.after_responses(responses) == (Exchange {
            state: if responses.len() == 0 {
                exchange.state
            } else {
                ExchangeState::Pending
            },
            pending_waits_left: (exchange.pending_waits_left - responses.len()) as nat,
            ..exchange
        }),
        responses.len() < exchange.pending_waits_left ==> exchange.after_responses(responses).step(
            TransportEventView::Received(next),
        ).1 == ActionView::Receive,
        responses.len() == exchange.pending_waits_left ==> exchange.after_responses(
            responses,
        ).step(TransportEventView::Received(next)) == exchange.after_responses(responses).fail(
            UdsErrorView::NRC {
                nrc: NrcData {
                    rejected_sid: exchange.request[0],
                    nrc: NegativeResponseCode::RequestCorrectlyReceivedResponsePending,
                },
            },
        ),
    decreases responses.len(),
{
    if responses.len() > 0 {
        lemma_response_pending(exchange, responses.drop_last(), responses.last());
    }
}

} // verus!
