//! What holds of every run of a connection bridge, whatever the driver
//! reports: each law is proved from the bridge's decisions alone.

use vstd::prelude::*;

use crate::bridge::closing;
use crate::bridge::step_model;
use crate::bridge::ActionModel;
use crate::bridge::EventModel;
use crate::bridge::StateModel;
use crate::error::BridgeError;
use crate::error::ParseFault;
use crate::error::ResponseFault;
use crate::http::absorbed;
use crate::http::ends_head;
use crate::http::lemma_absorbed_bounded;
use crate::http::lemma_absorbed_split;
use crate::http::parsed_head;
use crate::http::request_bytes;
use crate::http::ParsedHead;
use crate::http::MAX_HEADERS;
use crate::http::STATUS_OK;
use crate::opt::ProxyProtocol;
use crate::server::ServerConfig;
use crate::socks5::offer;
use crate::socks5::AUTH_METHOD_NONE;
use crate::socks5::REPLY_SUCCEEDED;

verus! {

/// The state that a run of the bridge ends in: `state` after `events`, taken
/// in order.
pub open spec fn state_after(config: ServerConfig, state: StateModel, events: Seq<EventModel>)
    -> StateModel
    decreases events.len(),
{
    if events.len() == 0 {
        state
    } else {
        state_after(config, step_model(config, state, events[0]).0, events.drop_first())
    }
}

/// The actions that a run of the bridge asks for, one for each event, in
/// order.
pub open spec fn actions_of(config: ServerConfig, state: StateModel, events: Seq<EventModel>)
    -> Seq<ActionModel>
    decreases events.len(),
{
    if events.len() == 0 {
        Seq::empty()
    } else {
        let next = step_model(config, state, events[0]);
        seq![next.1] + actions_of(config, next.0, events.drop_first())
    }
}

/// How often `actions` starts the relay.
pub open spec fn relays(actions: Seq<ActionModel>) -> nat
    decreases actions.len(),
{
    if actions.len() == 0 {
        0
    } else if actions[0] is Relay {
        1 + relays(actions.drop_first())
    } else {
        relays(actions.drop_first())
    }
}

/// Whether `actions` holds a SOCKS5 connect request.
pub open spec fn requests_connect(actions: Seq<ActionModel>) -> bool {
    exists|i: int| 0 <= i < actions.len() && #[trigger] actions[i] is RequestConnect
}

/// Whether `actions` dials upstream.
pub open spec fn dials(actions: Seq<ActionModel>) -> bool {
    exists|i: int| 0 <= i < actions.len() && #[trigger] actions[i] is Dial
}

/// A run has one action for each event.
pub proof fn lemma_one_action_per_event(
    config: ServerConfig,
    state: StateModel,
    events: Seq<EventModel>,
)
    ensures
        actions_of(config, state, events).len() == events.len(),
    decreases events.len(),
{
    if events.len() > 0 {
        lemma_one_action_per_event(
            config,
            step_model(config, state, events[0]).0,
            events.drop_first(),
        );
    }
}

/// A run that goes on with `later` after its first event: the first action
/// is the step's, the rest is the run from the step's state.
pub proof fn lemma_run_unfolds(
    config: ServerConfig,
    state: StateModel,
    first: EventModel,
    later: Seq<EventModel>,
)
    ensures
        state_after(config, state, seq![first] + later) == state_after(
            config,
            step_model(config, state, first).0,
            later,
        ),
        actions_of(config, state, seq![first] + later) == seq![step_model(config, state, first).1]
            + actions_of(config, step_model(config, state, first).0, later),
{
    let events = seq![first] + later;
    assert(events.drop_first() =~= later);
}

/// Counting relays in a run: the first action's share, and the rest's.
pub proof fn lemma_relays_unfold(first: ActionModel, rest: Seq<ActionModel>)
    ensures
        relays(seq![first] + rest) == (if first is Relay {
            1nat
        } else {
            0nat
        }) + relays(rest),
{
    let actions = seq![first] + rest;
    assert(actions.drop_first() =~= rest);
}

/// A closed connection stays closed whatever is reported afterwards: the
/// outcome stands, and every further action is the same `Close`.
pub proof fn law_closed_stays_closed(
    config: ServerConfig,
    outcome: Result<(), BridgeError>,
    events: Seq<EventModel>,
)
    ensures
        state_after(config, StateModel::Closed { outcome }, events) == (StateModel::Closed {
            outcome,
        }),
        forall|i: int|
            0 <= i < events.len() ==> #[trigger] actions_of(
                config,
                StateModel::Closed { outcome },
                events,
            )[i] == (ActionModel::Close { outcome }),
        relays(actions_of(config, StateModel::Closed { outcome }, events)) == 0,
    decreases events.len(),
{
    let closed = StateModel::Closed { outcome };
    lemma_one_action_per_event(config, closed, events);
    if events.len() > 0 {
        let rest = events.drop_first();
        law_closed_stays_closed(config, outcome, rest);
        lemma_relays_unfold(ActionModel::Close { outcome }, actions_of(config, closed, rest));
    }
}

/// Once the relay runs, it is not started again.
pub proof fn lemma_no_relay_after_relay(config: ServerConfig, events: Seq<EventModel>)
    ensures
        relays(actions_of(config, StateModel::Relaying, events)) == 0,
{
    if events.len() > 0 {
        let next = step_model(config, StateModel::Relaying, events[0]);
        let rest = events.drop_first();
        let outcome = next.0->outcome;
        law_closed_stays_closed(config, outcome, rest);
        lemma_relays_unfold(next.1, actions_of(config, next.0, rest));
    }
}

/// The relay starts at most once in any run, whatever the events are; and
/// a step that starts it leaves the bridge relaying.
pub proof fn law_relay_starts_at_most_once(
    config: ServerConfig,
    state: StateModel,
    events: Seq<EventModel>,
)
    ensures
        relays(actions_of(config, state, events)) <= 1,
        state is Relaying || state is Closed ==> relays(actions_of(config, state, events)) == 0,
    decreases events.len(),
{
    if events.len() > 0 {
        let next = step_model(config, state, events[0]);
        let rest = events.drop_first();
        lemma_relays_unfold(next.1, actions_of(config, next.0, rest));
        if next.1 is Relay {
            lemma_no_relay_after_relay(config, rest);
        } else {
            law_relay_starts_at_most_once(config, next.0, rest);
        }
    }
}

/// A connection gets one upstream connection for its whole life: no step
/// dials. The only `Dial` is the one that `start` gives.
pub proof fn law_upstream_is_dialed_once(
    config: ServerConfig,
    state: StateModel,
    events: Seq<EventModel>,
)
    ensures
        !dials(actions_of(config, state, events)),
    decreases events.len(),
{
    if events.len() > 0 {
        let next = step_model(config, state, events[0]);
        let rest = events.drop_first();
        law_upstream_is_dialed_once(config, next.0, rest);
        let actions = actions_of(config, state, events);
        assert forall|i: int| 0 <= i < actions.len() implies !(#[trigger] actions[i] is Dial) by {
            if i > 0 {
                assert(actions[i] == actions_of(config, next.0, rest)[i - 1]);
            }
        }
    }
}

/// A successful SOCKS5 handshake: upstream is reached, chooses "no
/// authentication" and replies "succeeded". Then the greeting offers that
/// one method, the connect request names the configured destination, and
/// the relay is entered exactly once, whatever is reported afterwards.
pub proof fn law_socks5_success_relays_once(config: ServerConfig, later: Seq<EventModel>)
    requires
        config.protocol == ProxyProtocol::Socks5,
    ensures
        ({
            let events = seq![
                EventModel::Connected,
                EventModel::MethodChosen(AUTH_METHOD_NONE),
                EventModel::Replied(REPLY_SUCCEEDED),
            ] + later;
            let actions = actions_of(config, StateModel::Dialing, events);
            &&& actions[0] == ActionModel::Negotiate { methods: seq![0u8] }
            &&& actions[1] == ActionModel::RequestConnect { destination: config.destination }
            &&& actions[2] == ActionModel::Relay { pending: Seq::empty() }
            &&& relays(actions) == 1
        }),
{
    let chosen = EventModel::MethodChosen(AUTH_METHOD_NONE);
    let replied = EventModel::Replied(REPLY_SUCCEEDED);
    let events = seq![EventModel::Connected, chosen, replied] + later;
    assert(events =~= seq![EventModel::Connected] + (seq![chosen] + (seq![replied] + later)));
    lemma_run_unfolds(
        config,
        StateModel::Dialing,
        EventModel::Connected,
        seq![chosen] + (seq![replied] + later),
    );
    lemma_run_unfolds(config, StateModel::AwaitingMethod, chosen, seq![replied] + later);
    lemma_run_unfolds(config, StateModel::AwaitingReply, replied, later);
    lemma_no_relay_after_relay(config, later);
    let tail = actions_of(config, StateModel::Relaying, later);
    let relay = ActionModel::Relay { pending: Seq::empty() };
    let request = ActionModel::RequestConnect { destination: config.destination };
    let greeting = ActionModel::Negotiate { methods: offer() };
    lemma_relays_unfold(relay, tail);
    lemma_relays_unfold(request, seq![relay] + tail);
    lemma_relays_unfold(greeting, seq![request] + (seq![relay] + tail));
}

/// Upstream chooses a method other than "no authentication": the
/// connection fails with `UnsupportedAuthMethod`, no connect request is
/// sent and the relay is never entered, whatever is reported afterwards.
pub proof fn law_other_method_sends_no_request(
    config: ServerConfig,
    method: u8,
    later: Seq<EventModel>,
)
    requires
        config.protocol == ProxyProtocol::Socks5,
        method != AUTH_METHOD_NONE,
    ensures
        ({
            let events = seq![EventModel::Connected, EventModel::MethodChosen(method)] + later;
            let actions = actions_of(config, StateModel::Dialing, events);
            &&& state_after(config, StateModel::Dialing, events) == (StateModel::Closed {
                outcome: Err(BridgeError::UnsupportedAuthMethod { method }),
            })
            &&& !requests_connect(actions)
            &&& relays(actions) == 0
        }),
{
    let chosen = EventModel::MethodChosen(method);
    let outcome = Err(BridgeError::UnsupportedAuthMethod { method });
    let events = seq![EventModel::Connected, chosen] + later;
    assert(events =~= seq![EventModel::Connected] + (seq![chosen] + later));
    lemma_run_unfolds(config, StateModel::Dialing, EventModel::Connected, seq![chosen] + later);
    lemma_run_unfolds(config, StateModel::AwaitingMethod, chosen, later);
    law_closed_stays_closed(config, outcome, later);
    lemma_one_action_per_event(config, StateModel::Closed { outcome }, later);
    let tail = actions_of(config, StateModel::Closed { outcome }, later);
    let close = ActionModel::Close { outcome };
    let greeting = ActionModel::Negotiate { methods: offer() };
    lemma_relays_unfold(close, tail);
    lemma_relays_unfold(greeting, seq![close] + tail);
    let actions = actions_of(config, StateModel::Dialing, events);
    assert forall|i: int| 0 <= i < actions.len() implies !(#[trigger] actions[i]
        is RequestConnect) by {
        if i >= 2 {
            assert(actions[i] == tail[i - 2]);
        }
    }
}

/// Upstream replies to the connect request with a code other than
/// "succeeded": the connection fails with `UpstreamRefused` and that code,
/// and the relay is never entered, whatever is reported afterwards.
pub proof fn law_refusal_never_relays(config: ServerConfig, reply: u8, later: Seq<EventModel>)
    requires
        config.protocol == ProxyProtocol::Socks5,
        reply != REPLY_SUCCEEDED,
    ensures
        ({
            let events = seq![
                EventModel::Connected,
                EventModel::MethodChosen(AUTH_METHOD_NONE),
                EventModel::Replied(reply),
            ] + later;
            &&& state_after(config, StateModel::Dialing, events) == (StateModel::Closed {
                outcome: Err(BridgeError::UpstreamRefused { code: reply as u16 }),
            })
            &&& relays(actions_of(config, StateModel::Dialing, events)) == 0
        }),
{
    let chosen = EventModel::MethodChosen(AUTH_METHOD_NONE);
    let replied = EventModel::Replied(reply);
    let outcome = Err(BridgeError::UpstreamRefused { code: reply as u16 });
    let events = seq![EventModel::Connected, chosen, replied] + later;
    assert(events =~= seq![EventModel::Connected] + (seq![chosen] + (seq![replied] + later)));
    lemma_run_unfolds(
        config,
        StateModel::Dialing,
        EventModel::Connected,
        seq![chosen] + (seq![replied] + later),
    );
    lemma_run_unfolds(config, StateModel::AwaitingMethod, chosen, seq![replied] + later);
    lemma_run_unfolds(config, StateModel::AwaitingReply, replied, later);
    law_closed_stays_closed(config, outcome, later);
    let tail = actions_of(config, StateModel::Closed { outcome }, later);
    let close = ActionModel::Close { outcome };
    let request = ActionModel::RequestConnect { destination: config.destination };
    let greeting = ActionModel::Negotiate { methods: offer() };
    lemma_relays_unfold(close, tail);
    lemma_relays_unfold(request, seq![close] + tail);
    lemma_relays_unfold(greeting, seq![request] + (seq![close] + tail));
}

/// The handshake is strictly in order. The first message goes out only
/// when upstream has just been reached, and it is the one of the configured
/// protocol. A SOCKS5 connect request goes out only when upstream has just
/// chosen "no authentication", and it names the configured destination.
pub proof fn law_handshake_keeps_its_order(
    config: ServerConfig,
    state: StateModel,
    event: EventModel,
)
    ensures
        ({
            let action = step_model(config, state, event).1;
            &&& action is Negotiate ==> state is Dialing && event is Connected && config.protocol
                == ProxyProtocol::Socks5 && action == (ActionModel::Negotiate { methods: offer() })
            &&& action is SendRequest ==> state is Dialing && event is Connected && config.protocol
                == ProxyProtocol::Http && action == (ActionModel::SendRequest {
                bytes: request_bytes(config.destination, config.upstream),
            })
            &&& action is RequestConnect ==> state is AwaitingMethod && event
                == EventModel::MethodChosen(AUTH_METHOD_NONE) && action
                == (ActionModel::RequestConnect { destination: config.destination })
            &&& action is ReadMore ==> state is CollectingHead && event is Received
            &&& !(action is Dial)
        }),
{
}

/// The relay starts on success and on nothing else: a step asks for it
/// only when upstream has just replied "succeeded" to the SOCKS5 connect
/// request, or when the HTTP header block has just been closed and parses
/// to status 200.
pub proof fn law_relay_only_on_success(config: ServerConfig, state: StateModel, event: EventModel)
    ensures
        step_model(config, state, event).1 is Relay ==> {
            ||| state is AwaitingReply && event == EventModel::Replied(REPLY_SUCCEEDED)
            ||| {
                &&& state matches StateModel::CollectingHead { buffer }
                &&& event matches EventModel::Received(chunk)
                &&& ends_head(buffer + chunk.take(absorbed(buffer, chunk) as int))
                &&& parsed_head(
                    buffer + chunk.take(absorbed(buffer, chunk) as int),
                    MAX_HEADERS as nat,
                ) == (ParsedHead::Complete { code: Some(STATUS_OK) })
            }
        },
{
}

/// Both sockets are released exactly when the connection is over: a step
/// asks for `Close` if and only if it leaves the bridge closed, and with the
/// outcome that the closed state records. And every failure that the driver
/// reports ends the connection at once, whatever the state.
pub proof fn law_every_end_releases_the_sockets(
    config: ServerConfig,
    state: StateModel,
    event: EventModel,
)
    ensures
        ({
            let next = step_model(config, state, event);
            &&& next.0 is Closed <==> next.1 is Close
            &&& next.0 is Closed ==> next.1 == (ActionModel::Close { outcome: next.0->outcome })
            &&& event is ConnectFailed || event is IoFailed || event is EndOfStream || event
                is Undecodable || event is RelayFailed ==> next.0 is Closed
            &&& !(state is Closed) && next.0 is Closed ==> next.0->outcome is Err || (state
                is Relaying && event is RelayFinished)
        }),
{
}

/// A successful HTTP handshake: upstream is reached and the first read
/// brings a whole header block that parses to status 200. Then the request
/// that went out names the configured destination and, as `Host`, the
/// upstream proxy; the relay is entered exactly once, whatever is reported
/// afterwards; and what was read behind the block is pending for the
/// client.
pub proof fn law_http_success_relays_once(
    config: ServerConfig,
    chunk: Seq<u8>,
    later: Seq<EventModel>,
)
    requires
        config.protocol == ProxyProtocol::Http,
    ensures
        ({
            let taken = absorbed(Seq::empty(), chunk) as int;
            let head = chunk.take(taken);
            let events = seq![EventModel::Connected, EventModel::Received(chunk)] + later;
            let actions = actions_of(config, StateModel::Dialing, events);
            ends_head(head) && parsed_head(head, MAX_HEADERS as nat) == (ParsedHead::Complete {
                code: Some(STATUS_OK),
            }) ==> {
                &&& actions[0] == ActionModel::SendRequest {
                    bytes: request_bytes(config.destination, config.upstream),
                }
                &&& actions[1] == ActionModel::Relay { pending: chunk.skip(taken) }
                &&& relays(actions) == 1
            }
        }),
{
    let taken = absorbed(Seq::empty(), chunk) as int;
    let head = chunk.take(taken);
    let received = EventModel::Received(chunk);
    let events = seq![EventModel::Connected, received] + later;
    let collecting = StateModel::CollectingHead { buffer: Seq::empty() };
    assert(events =~= seq![EventModel::Connected] + (seq![received] + later));
    lemma_run_unfolds(config, StateModel::Dialing, EventModel::Connected, seq![received] + later);
    lemma_run_unfolds(config, collecting, received, later);
    if ends_head(head) && parsed_head(head, MAX_HEADERS as nat) == (ParsedHead::Complete {
        code: Some(STATUS_OK),
    }) {
        lemma_no_relay_after_relay(config, later);
        let tail = actions_of(config, StateModel::Relaying, later);
        let relay = ActionModel::Relay { pending: chunk.skip(taken) };
        let request = ActionModel::SendRequest {
            bytes: request_bytes(config.destination, config.upstream),
        };
        lemma_relays_unfold(relay, tail);
        lemma_relays_unfold(request, seq![relay] + tail);
    }
}

/// A header block that arrives in two reads is assembled as if it had come
/// in one. Where the first read leaves the block open, the second read
/// continues it. Where the first read closes the block, what lies behind
/// the block is not parsed: on success it is pending for the client, with
/// all of the second read behind it.
pub proof fn law_split_reads_assemble_alike(
    config: ServerConfig,
    buffer: Seq<u8>,
    first: Seq<u8>,
    second: Seq<u8>,
)
    ensures
        ({
            let collecting = StateModel::CollectingHead { buffer };
            let whole = step_model(config, collecting, EventModel::Received(first + second));
            let part = step_model(config, collecting, EventModel::Received(first));
            match part {
                (StateModel::CollectingHead { buffer: partial }, _) => whole == step_model(
                    config,
                    part.0,
                    EventModel::Received(second),
                ),
                (StateModel::Relaying, ActionModel::Relay { pending }) => whole == (
                    StateModel::Relaying,
                    ActionModel::Relay { pending: pending + second },
                ),
                _ => whole == part,
            }
        }),
{
    lemma_absorbed_split(buffer, first, second);
    let taken = absorbed(buffer, first) as int;
    let head = buffer + first.take(taken);
    lemma_absorbed_bounded(buffer, first);
    if ends_head(head) {
        assert((first + second).take(taken) =~= first.take(taken));
        assert((first + second).skip(taken) =~= first.skip(taken) + second);
    } else {
        let more = absorbed(buffer + first, second) as int;
        lemma_absorbed_bounded(buffer + first, second);
        assert(head =~= buffer + first);
        assert(buffer + (first + second).take(first.len() + more) =~= head + second.take(more));
        assert((first + second).skip(first.len() + more) =~= second.skip(more));
    }
}

/// The header block is closed and parses to a status other than 200: the
/// connection fails with `UpstreamRefused` and that status, and the relay
/// is never entered, whatever is reported afterwards.
pub proof fn law_other_status_never_relays(
    config: ServerConfig,
    buffer: Seq<u8>,
    chunk: Seq<u8>,
    code: u16,
    later: Seq<EventModel>,
)
    ensures
        ({
            let head = buffer + chunk.take(absorbed(buffer, chunk) as int);
            let collecting = StateModel::CollectingHead { buffer };
            let events = seq![EventModel::Received(chunk)] + later;
            ends_head(head) && code != STATUS_OK && parsed_head(
                head,
                MAX_HEADERS as nat,
            ) == (ParsedHead::Complete { code: Some(code) }) ==> {
                &&& state_after(config, collecting, events) == (StateModel::Closed {
                    outcome: Err(BridgeError::UpstreamRefused { code }),
                })
                &&& relays(actions_of(config, collecting, events)) == 0
            }
        }),
{
    let outcome = Err(BridgeError::UpstreamRefused { code });
    let collecting = StateModel::CollectingHead { buffer };
    lemma_run_unfolds(config, collecting, EventModel::Received(chunk), later);
    law_closed_stays_closed(config, outcome, later);
    lemma_relays_unfold(
        ActionModel::Close { outcome },
        actions_of(config, StateModel::Closed { outcome }, later),
    );
}

/// The header block is closed and the parser finds more header fields in
/// it than the cap allows: the connection fails with `MalformedResponse`,
/// and the relay is never entered, whatever is reported afterwards.
pub proof fn law_too_many_headers_never_relay(
    config: ServerConfig,
    buffer: Seq<u8>,
    chunk: Seq<u8>,
    later: Seq<EventModel>,
)
    ensures
        ({
            let head = buffer + chunk.take(absorbed(buffer, chunk) as int);
            let collecting = StateModel::CollectingHead { buffer };
            let events = seq![EventModel::Received(chunk)] + later;
            let fault = ResponseFault::Syntax(ParseFault::TooManyHeaders);
            ends_head(head) && parsed_head(head, MAX_HEADERS as nat) == ParsedHead::Invalid(
                ParseFault::TooManyHeaders,
            ) ==> {
                &&& state_after(config, collecting, events) == (StateModel::Closed {
                    outcome: Err(BridgeError::MalformedResponse { fault }),
                })
                &&& relays(actions_of(config, collecting, events)) == 0
            }
        }),
{
    let fault = ResponseFault::Syntax(ParseFault::TooManyHeaders);
    let outcome = Err(BridgeError::MalformedResponse { fault });
    let collecting = StateModel::CollectingHead { buffer };
    lemma_run_unfolds(config, collecting, EventModel::Received(chunk), later);
    law_closed_stays_closed(config, outcome, later);
    lemma_relays_unfold(
        ActionModel::Close { outcome },
        actions_of(config, StateModel::Closed { outcome }, later),
    );
}

} // verus!
