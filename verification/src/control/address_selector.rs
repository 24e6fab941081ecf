//! Finding a control endpoint that answers.

use vstd::prelude::*;

use super::SocketAddress;

verus! {

/// How long one wait for an answer takes, in milliseconds.
pub const RESPONSE_WAIT_MILLIS: u64 = 500;

/// The number of the request that asks an endpoint for its first answer.
pub const FIRST_REQUEST_ID: u64 = 1;

/// How often an endpoint is asked.
pub open spec fn attempts_for(address: SocketAddress) -> nat {
    if address.is_ipv6 {
        1
    } else {
        3
    }
}

/// How many answers are waited for after each question.
pub open spec fn waits_for(address: SocketAddress) -> nat {
    if address.is_ipv6 {
        3
    } else {
        5
    }
}

/// What came of a wait for an answer.
#[derive(Clone, Copy, Debug, PartialEq, Eq, Structural)]
pub enum Reply {
    /// A pong that answers request `request_id`.
    Pong { peer: SocketAddress, request_id: u64 },
    /// Anything else that was received.
    Other { peer: SocketAddress },
    /// Nothing could be received.
    Failed,
    /// Nothing came in time.
    TimedOut,
}

/// What came of the selector's last action.
#[derive(Clone, Copy, Debug, PartialEq, Eq, Structural)]
pub enum SelectorEvent {
    /// Whether the question could be sent.
    PingSent { sent: bool },
    Received(Reply),
}

/// What the selector does next.
#[derive(Clone, Copy, Debug, PartialEq, Eq, Structural)]
pub enum SelectorAction {
    /// Send a ping as the first request to the endpoint.
    Ping(SocketAddress),
    /// Wait for an answer of the endpoint.
    Receive(SocketAddress),
    /// The endpoint answered.
    Connected(SocketAddress),
    /// No endpoint answered.
    Unavailable,
}

/// Tries endpoints in order until one answers.
pub struct AddressSelector {
    pub options: Vec<SocketAddress>,
    pub index: usize,
    pub attempt: u32,
    pub wait: u32,
}

/// The model of an [`AddressSelector`]: the endpoints, the one that is tried, how often it
/// was asked before, and how many answers were waited for since.
#[verifier::ext_equal]
pub struct AddressSelectorView {
    pub options: Seq<SocketAddress>,
    pub index: nat,
    pub attempt: nat,
    pub wait: nat,
}

impl View for AddressSelector {
    type V = AddressSelectorView;

    open spec fn view(&self) -> AddressSelectorView {
        AddressSelectorView {
            options: self.options@,
            index: self.index as nat,
            attempt: self.attempt as nat,
            wait: self.wait as nat,
        }
    }
}

impl AddressSelectorView {
    pub open spec fn valid(self) -> bool {
        &&& self.index <= self.options.len()
        &&& self.index < self.options.len() ==> self.attempt < attempts_for(
            self.options[self.index as int],
        ) && self.wait < waits_for(self.options[self.index as int])
    }

    /// The endpoint that is tried.
    pub open spec fn current(self) -> SocketAddress {
        self.options[self.index as int]
    }

    /// Ask the endpoint at a place in the list, if the list goes that far.
    pub open spec fn ask(self, index: nat, attempt: nat) -> (AddressSelectorView, SelectorAction) {
        let next = AddressSelectorView { index, attempt, wait: 0, ..self };
        if index < self.options.len() {
            (next, SelectorAction::Ping(self.options[index as int]))
        } else {
            (next, SelectorAction::Unavailable)
        }
    }

    /// What follows an event.
    pub open spec fn step(self, event: SelectorEvent) -> (AddressSelectorView, SelectorAction) {
        match event {
            SelectorEvent::PingSent { sent } => if sent {
                (
                    AddressSelectorView { wait: 0, ..self },
                    SelectorAction::Receive(self.current()),
                )
            } else {
                self.ask(self.index + 1, 0)
            },
            SelectorEvent::Received(reply) => if reply == (Reply::Pong {
                peer: self.current(),
                request_id: FIRST_REQUEST_ID,
            }) {
                (self, SelectorAction::Connected(self.current()))
            } else if self.wait + 1 < waits_for(self.current()) {
                (
                    AddressSelectorView { wait: self.wait + 1, ..self },
                    SelectorAction::Receive(self.current()),
                )
            } else if self.attempt + 1 < attempts_for(self.current()) {
                self.ask(self.index, self.attempt + 1)
            } else {
                self.ask(self.index + 1, 0)
            },
        }
    }

    /// An upper bound on the actions that are left after `action`.
    pub open spec fn actions_left(self, action: SelectorAction) -> int {
        match action {
            SelectorAction::Ping(_) => (self.options.len() - self.index) * 18 - self.attempt * 6,
            SelectorAction::Receive(_) => (self.options.len() - self.index) * 18 - self.attempt * 6
                - 1 - self.wait,
            _ => 0,
        }
    }
}

impl AddressSelector {
    pub fn new(options: Vec<SocketAddress>) -> (r: Self)
        ensures
            r@ == (AddressSelectorView { options: options@, index: 0, attempt: 0, wait: 0 }),
            r@.valid(),
    {
        AddressSelector { options, index: 0, attempt: 0, wait: 0 }
    }

    /// The first action: ask the first endpoint, if there is one.
    pub fn connect_to_first(&self) -> (r: SelectorAction)
        requires
            self@.valid(),
        ensures
            r == self@.ask(self@.index, self@.attempt).1,
    {
        if self.index < self.options.len() {
            SelectorAction::Ping(self.options[self.index])
        } else {
            SelectorAction::Unavailable
        }
    }

    fn next_address(&mut self) -> (r: SelectorAction)
        requires
            old(self)@.valid(),
            old(self)@.index < old(self)@.options.len(),
        ensures
            (final(self)@, r) == old(self)@.ask(old(self)@.index + 1, 0),
            final(self)@.valid(),
    {
        let count: usize = self.options.len();
        self.index = self.index + 1;
        self.attempt = 0;
        self.wait = 0;
        if self.index < count {
            SelectorAction::Ping(self.options[self.index])
        } else {
            SelectorAction::Unavailable
        }
    }

    /// What follows an event, while an endpoint is tried.
    pub fn step(&mut self, event: SelectorEvent) -> (r: SelectorAction)
        requires
            old(self)@.valid(),
            old(self)@.index < old(self)@.options.len(),
        ensures
            (final(self)@, r) == old(self)@.step(event),
            final(self)@.valid(),
            r is Ping || r is Receive ==> final(self)@.index < final(self)@.options.len(),
    {
        let address = self.options[self.index];
        match event {
            SelectorEvent::PingSent { sent } => if sent {
                self.wait = 0;
                SelectorAction::Receive(address)
            } else {
                self.next_address()
            },
            SelectorEvent::Received(reply) => {
                let answered = match reply {
                    Reply::Pong { peer, request_id } => peer == address && request_id
                        == FIRST_REQUEST_ID,
                    _ => false,
                };
                let attempts: u32 = if address.is_ipv6 {
                    1
                } else {
                    3
                };
                let waits: u32 = if address.is_ipv6 {
                    3
                } else {
                    5
                };
                if answered {
                    SelectorAction::Connected(address)
                } else if self.wait + 1 < waits {
                    self.wait = self.wait + 1;
                    SelectorAction::Receive(address)
                } else if self.attempt + 1 < attempts {
                    self.attempt = self.attempt + 1;
                    self.wait = 0;
                    SelectorAction::Ping(address)
                } else {
                    self.next_address()
                }
            },
        }
    }
}

/// The selector connects only to one of the endpoints that it was given, and only after a
/// pong for its own request came from that very endpoint.
pub proof fn selectors_trust_only_the_asked_endpoint(
    selector: AddressSelectorView,
    event: SelectorEvent,
)
    requires
        selector.valid(),
        selector.index < selector.options.len(),
    ensures
        selector.step(event).1 matches SelectorAction::Connected(address) ==> {
            &&& selector.options.contains(address)
            &&& event == SelectorEvent::Received(
                Reply::Pong { peer: address, request_id: FIRST_REQUEST_ID },
            )
        },
{
    if selector.step(event).1 is Connected {
        assert(selector.options[selector.index as int] == selector.current());
    }
}

/// The search comes to an end: each action that is followed by another one leaves fewer,
/// and an endpoint is asked at most three times.
pub proof fn selectors_come_to_an_end(
    selector: AddressSelectorView,
    action: SelectorAction,
    event: SelectorEvent,
)
    requires
        selector.valid(),
        selector.index < selector.options.len(),
        action is Ping <==> event is PingSent,
        action is Receive <==> event is Received,
        action is Ping ==> selector.wait == 0,
    ensures
        selector.actions_left(action) > 0,
        selector.step(event).0.actions_left(selector.step(event).1) < selector.actions_left(action),
        selector.attempt < 3,
{
    let (next, act) = selector.step(event);
    let n = selector.options.len() as int;
    let i = selector.index as int;
    assert((n - i) * 18 >= 18 + (n - (i + 1)) * 18);
    assert((n - i) * 18 >= 18);
}

/// The endpoints are tried in order: an endpoint is left only if it could not be asked or
/// did not answer, and then the next one is tried.
pub proof fn endpoints_are_tried_in_order(selector: AddressSelectorView, event: SelectorEvent)
    requires
        selector.valid(),
        selector.index < selector.options.len(),
    ensures
        selector.step(event).0.options == selector.options,
        selector.step(event).0.index == selector.index || selector.step(event).0.index
            == selector.index + 1,
        selector.step(event).1 is Unavailable ==> selector.index + 1 == selector.options.len(),
{
}

/// The selector connects exactly when the endpoint that is tried, of whatever kind its address
/// is, answered request 1 with a pong; it connects to that endpoint and to no other, and it
/// never goes on once it has its answer. Any other reply, and a pong from elsewhere or to
/// another request, connects to nothing.
pub proof fn endpoints_that_answer_are_connected_to(
    selector: AddressSelectorView,
    event: SelectorEvent,
)
    requires
        selector.index < selector.options.len(),
    ensures
        selector.step(event).1 is Connected <==> event == SelectorEvent::Received(
            Reply::Pong { peer: selector.options[selector.index as int], request_id: 1 },
        ),
        selector.step(event).1 matches SelectorAction::Connected(address) ==> address
            == selector.options[selector.index as int] && selector.step(event).0 == selector,
{
}

/// An endpoint is given up early only if it cannot be asked at all. Else an IPv4 endpoint is
/// asked three times, with five waits each, and an IPv6 endpoint once, with three waits; only
/// then the next one is asked.
pub proof fn endpoints_get_their_full_chance(selector: AddressSelectorView, event: SelectorEvent)
    requires
        selector.index < selector.options.len(),
    ensures
        ({
            let tried = selector.options[selector.index as int];
            let (next, action) = selector.step(event);
            let last_wait = if tried.is_ipv6 {
                selector.wait >= 2
            } else {
                selector.wait >= 4
            };
            let last_attempt = tried.is_ipv6 || selector.attempt >= 2;
            let unanswered = event is Received && event != SelectorEvent::Received(
                Reply::Pong { peer: tried, request_id: 1 },
            );
            &&& next.index > selector.index <==> (event == (SelectorEvent::PingSent { sent: false })
                || (unanswered && last_wait && last_attempt))
            &&& next.index > selector.index ==> {
                &&& next.index == selector.index + 1
                &&& next.attempt == 0
                &&& next.wait == 0
                &&& selector.index + 1 < selector.options.len() ==> action == SelectorAction::Ping(
                    selector.options[selector.index as int + 1],
                )
                &&& selector.index + 1 == selector.options.len() ==> action
                    == SelectorAction::Unavailable
            }
            &&& unanswered && !last_wait ==> action == SelectorAction::Receive(tried) && next
                == (AddressSelectorView { wait: selector.wait + 1, ..selector })
            &&& unanswered && last_wait && !last_attempt ==> action == SelectorAction::Ping(tried)
                && next == (AddressSelectorView {
                attempt: selector.attempt + 1,
                wait: 0,
                ..selector
            })
            &&& event == (SelectorEvent::PingSent { sent: true }) ==> action
                == SelectorAction::Receive(tried) && next == (AddressSelectorView {
                wait: 0,
                ..selector
            })
        }),
{
}

/// The search begins with a question to the first endpoint, and without any endpoint it is
/// over at once.
pub proof fn searches_begin_with_the_first_endpoint(selector: AddressSelectorView)
    requires
        selector.index == 0,
    ensures
        selector.options.len() > 0 ==> selector.ask(selector.index, selector.attempt).1
            == SelectorAction::Ping(selector.options[0]),
        selector.options.len() == 0 ==> selector.ask(selector.index, selector.attempt).1
            == SelectorAction::Unavailable,
        RESPONSE_WAIT_MILLIS == 500,
{
}

} // verus!
