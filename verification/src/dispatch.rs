//! The dispatcher: turns each handler outcome into outbound messages, runs
//! the built-in command table before the plugin chain, and applies the
//! error-handling policy uniformly.
//!
//! Policy: a success delivers the handler's messages; `Unhandled` is silent
//! and lets the chain continue; `Unexpected` delivers a failure notice to
//! the event's source and also lets the chain continue. A core-command
//! success ends the event; a core-command failure still reaches every
//! plugin. Every plugin is offered every event, in load order, whatever the
//! plugins before it did.

use vstd::prelude::*;
use vstd::string::StringExecFns;

use crate::messages::HandleError;
use crate::messages::HandleErrorV;
use crate::messages::HandleResult;
use crate::messages::InboundMessage;
use crate::messages::InboundMessageV;
use crate::messages::OutboundMessage;
use crate::messages::OutboundMessageV;
use crate::messages::PluginError;
use crate::messages::RoomV;
use crate::messages::Source;
use crate::messages::SourceV;
use crate::messages::Room;
use crate::messages::msgs_view;
use crate::messages::result_view;
use crate::messages::spec_error_text;
use crate::messages::error_text;
use crate::messages::strs_view;
use crate::plugin::Plugin;
use crate::state::SlackState;
use crate::text::str_eq;

verus! {

// ------------------------------------------------------------------
// One handler outcome
// ------------------------------------------------------------------

/// The messages one handler outcome delivers: its own messages on success,
/// none for a decline, one failure notice to the source otherwise.
pub open spec fn outcome_view(
    source: SourceV,
    r: Result<Seq<OutboundMessageV>, HandleErrorV>,
) -> Seq<OutboundMessageV> {
    match r {
        Ok(msgs) => msgs,
        Err(HandleErrorV::Unhandled) => Seq::empty(),
        Err(HandleErrorV::Unexpected(reason)) => seq![
            OutboundMessageV { destination: source, content: "Whoops! "@ + reason },
        ],
    }
}

/// Applies the error-handling policy to one handler outcome.
pub fn outcome_messages(source: &Source, result: HandleResult) -> (out: Vec<OutboundMessage>)
    ensures
        msgs_view(out@) == outcome_view(source@, result_view(result)),
{
    match result {
        Ok(msgs) => {
            proof {
                assert(msgs_view(msgs@) =~= outcome_view(source@, result_view(Ok(msgs))));
            }
            msgs
        },
        Err(HandleError::Unhandled) => {
            let out: Vec<OutboundMessage> = Vec::new();
            proof {
                assert(msgs_view(out@) =~= Seq::<OutboundMessageV>::empty());
            }
            out
        },
        Err(HandleError::Unexpected(reason)) => {
            let mut content = String::from_str("Whoops! ");
            content.append(reason.as_str());
            let mut out: Vec<OutboundMessage> = Vec::new();
            out.push(OutboundMessage { destination: source.clone(), content });
            proof {
                assert(msgs_view(out@) =~= outcome_view(
                    source@,
                    result_view(Err(HandleError::Unexpected(reason))),
                ));
            }
            out
        },
    }
}

// ------------------------------------------------------------------
// The built-in command table
// ------------------------------------------------------------------

/// What the built-in command table decides for an inbound message.
pub enum CoreDecision {
    /// The core answered the command, failed at it, or declined it.
    Done(HandleResult),
    /// The core must load the given plugin reference, then report through
    /// `core_load_report`.
    Load(String),
}

/// Ghost view of a `CoreDecision`.
pub ghost enum CoreDecisionV {
    Done(Result<Seq<OutboundMessageV>, HandleErrorV>),
    Load(Seq<char>),
}

impl View for CoreDecision {
    type V = CoreDecisionV;

    open spec fn view(&self) -> CoreDecisionV {
        match self {
            CoreDecision::Done(r) => CoreDecisionV::Done(result_view(*r)),
            CoreDecision::Load(name) => CoreDecisionV::Load(name@),
        }
    }
}

/// The static identification text of the `version` command.
pub open spec fn spec_version_text() -> Seq<char> {
    "I am version 1.0"@
}

/// What the built-in table decides: `version` answers with the
/// identification text; `load` with a reference asks for that load; `load`
/// without one fails; everything else is declined.
pub open spec fn spec_core_commands(m: InboundMessageV) -> CoreDecisionV {
    if m.command == "version"@ {
        CoreDecisionV::Done(
            Ok(seq![OutboundMessageV { destination: m.source, content: spec_version_text() }]),
        )
    } else if m.command == "load"@ && m.arguments.len() >= 1 {
        CoreDecisionV::Load(m.arguments[0])
    } else if m.command == "load"@ {
        CoreDecisionV::Done(
            Err(HandleErrorV::Unexpected("load requires a plugin reference"@)),
        )
    } else {
        CoreDecisionV::Done(Err(HandleErrorV::Unhandled))
    }
}

/// Looks the command up in the built-in table.
pub fn core_commands(message: &InboundMessage) -> (d: CoreDecision)
    ensures
        d@ == spec_core_commands(message@),
{
    if str_eq(message.command.as_str(), "version") {
        let mut out: Vec<OutboundMessage> = Vec::new();
        out.push(
            OutboundMessage {
                destination: message.source.clone(),
                content: String::from_str("I am version 1.0"),
            },
        );
        let d = CoreDecision::Done(Ok(out));
        proof {
            assert(msgs_view(out@) =~= seq![
                OutboundMessageV { destination: message@.source, content: spec_version_text() },
            ]);
        }
        d
    } else if str_eq(message.command.as_str(), "load") {
        if message.arguments.len() >= 1 {
            CoreDecision::Load(message.arguments[0].clone())
        } else {
            CoreDecision::Done(
                Err(HandleError::Unexpected(String::from_str("load requires a plugin reference"))),
            )
        }
    } else {
        CoreDecision::Done(Err(HandleError::Unhandled))
    }
}

/// Reports a requested load back to the event's source: success names the
/// loaded reference; any loader error becomes a handler failure carrying
/// the error's name.
pub fn core_load_report(source: &Source, name: &str, outcome: Result<(), PluginError>) -> (r:
    HandleResult)
    ensures
        outcome matches Ok(u) ==> result_view(r) matches Ok(msgs) && msgs =~= seq![
            OutboundMessageV { destination: source@, content: "Loaded "@ + name@ },
        ],
        outcome matches Err(e) ==> result_view(r) == Err::<Seq<OutboundMessageV>, HandleErrorV>(
            HandleErrorV::Unexpected(spec_error_text(e)),
        ),
{
    match outcome {
        Ok(u) => {
            let mut content = String::from_str("Loaded ");
            content.append(name);
            let mut out: Vec<OutboundMessage> = Vec::new();
            out.push(OutboundMessage { destination: source.clone(), content });
            Ok(out)
        },
        Err(e) => Err(HandleError::Unexpected(error_text(e))),
    }
}

// ------------------------------------------------------------------
// The plugin chain
// ------------------------------------------------------------------

/// The messages a whole chain of handler outcomes delivers, in order.
pub open spec fn concat_outcomes(
    source: SourceV,
    rs: Seq<Result<Seq<OutboundMessageV>, HandleErrorV>>,
) -> Seq<OutboundMessageV>
    decreases rs.len(),
{
    if rs.len() == 0 {
        Seq::empty()
    } else {
        outcome_view(source, rs[0]) + concat_outcomes(source, rs.drop_first())
    }
}

/// Appending one more outcome appends that outcome's messages.
pub proof fn lemma_concat_outcomes_push(
    source: SourceV,
    rs: Seq<Result<Seq<OutboundMessageV>, HandleErrorV>>,
    r: Result<Seq<OutboundMessageV>, HandleErrorV>,
)
    ensures
        concat_outcomes(source, rs.push(r)) == concat_outcomes(source, rs) + outcome_view(
            source,
            r,
        ),
    decreases rs.len(),
{
    if rs.len() == 0 {
        let s1 = rs.push(r);
        assert(s1.len() == 1);
        assert(concat_outcomes(source, s1) == outcome_view(source, s1[0]) + concat_outcomes(
            source,
            s1.drop_first(),
        ));
        assert(s1[0] == r);
        assert(s1.drop_first() =~= Seq::<Result<Seq<OutboundMessageV>, HandleErrorV>>::empty());
        assert(concat_outcomes(source, s1.drop_first()) == Seq::<OutboundMessageV>::empty());
        assert(concat_outcomes(source, rs) == Seq::<OutboundMessageV>::empty());
        assert((outcome_view(source, r) + Seq::<OutboundMessageV>::empty()) =~= (Seq::<
            OutboundMessageV,
        >::empty() + outcome_view(source, r)));
    } else {
        assert(rs.push(r)[0] == rs[0]);
        assert(rs.push(r).drop_first() =~= rs.drop_first().push(r));
        lemma_concat_outcomes_push(source, rs.drop_first(), r);
        assert(concat_outcomes(source, rs.push(r)) =~= concat_outcomes(source, rs) + outcome_view(
            source,
            r,
        ));
    }
}

/// Offers the event to every plugin, in load order, and collects what the
/// policy delivers for each outcome. Every plugin is invoked, whatever the
/// plugins before it returned; the chain's messages are the per-plugin
/// deliveries, concatenated in load order.
#[verifier::loop_isolation(false)]
pub fn dispatch_plugins<P: Plugin>(
    state: &SlackState,
    plugins: &mut Vec<P>,
    message: &InboundMessage,
) -> (out: Vec<OutboundMessage>)
    ensures
        final(plugins)@.len() == old(plugins)@.len(),
        exists|rs: Seq<Result<Seq<OutboundMessageV>, HandleErrorV>>|
            rs.len() == old(plugins)@.len() && msgs_view(out@) == concat_outcomes(
                message@.source,
                rs,
            ),
{
    let ghost n = plugins@.len();
    let mut out: Vec<OutboundMessage> = Vec::new();
    let ghost mut rs: Seq<Result<Seq<OutboundMessageV>, HandleErrorV>> = Seq::empty();
    let mut i: usize = 0;
    proof {
        assert(msgs_view(out@) =~= concat_outcomes(message@.source, rs));
    }
    while i < plugins.len()
        invariant
            plugins@.len() == n,
            i <= n,
            rs.len() == i,
            msgs_view(out@) == concat_outcomes(message@.source, rs),
        decreases n - i,
    {
        let mut p = plugins.remove(0);
        let r = p.handle(state, message);
        let ghost rv = result_view(r);
        let ghost out_before = out@;
        let mut produced = outcome_messages(&message.source, r);
        out.append(&mut produced);
        plugins.push(p);
        proof {
            lemma_concat_outcomes_push(message@.source, rs, rv);
            rs = rs.push(rv);
            assert(msgs_view(out@) =~= msgs_view(out_before) + outcome_view(message@.source, rv));
            assert(msgs_view(out@) =~= concat_outcomes(message@.source, rs));
        }
        i = i + 1;
    }
    out
}

// ------------------------------------------------------------------
// A whole event
// ------------------------------------------------------------------

/// The messages one event delivers, given the core outcome and the chain's
/// outcomes: a core success ends the event with its messages; a core decline
/// hands the event silently to the chain; a core failure delivers the
/// failure notice and still hands the event to the chain.
pub open spec fn spec_event_messages(
    source: SourceV,
    core: Result<Seq<OutboundMessageV>, HandleErrorV>,
    rs: Seq<Result<Seq<OutboundMessageV>, HandleErrorV>>,
) -> Seq<OutboundMessageV> {
    match core {
        Ok(msgs) => msgs,
        Err(e) => outcome_view(source, Err(e)) + concat_outcomes(source, rs),
    }
}

/// Applies the whole-event policy: delivers the core outcome, and unless the
/// core succeeded, offers the event to every plugin afterwards.
pub fn dispatch_with_core<P: Plugin>(
    state: &SlackState,
    plugins: &mut Vec<P>,
    message: &InboundMessage,
    core_result: HandleResult,
) -> (out: Vec<OutboundMessage>)
    ensures
        final(plugins)@.len() == old(plugins)@.len(),
        result_view(core_result) is Ok ==> final(plugins)@ == old(plugins)@,
        exists|rs: Seq<Result<Seq<OutboundMessageV>, HandleErrorV>>|
            msgs_view(out@) == spec_event_messages(message@.source, result_view(core_result), rs)
                && (result_view(core_result) is Err ==> rs.len() == old(plugins)@.len()),
{
    match core_result {
        Ok(msgs) => {
            proof {
                let rs = Seq::<Result<Seq<OutboundMessageV>, HandleErrorV>>::empty();
                assert(rs.len() == 0);
                assert(msgs_view(msgs@) == spec_event_messages(
                    message@.source,
                    result_view(core_result),
                    rs,
                ));
            }
            msgs
        },
        Err(e) => {
            let ghost ev = e@;
            let mut out = outcome_messages(&message.source, Err(e));
            let mut rest = dispatch_plugins(state, plugins, message);
            let ghost rest_view = msgs_view(rest@);
            let ghost out_before = out@;
            out.append(&mut rest);
            proof {
                let rs = choose|rs: Seq<Result<Seq<OutboundMessageV>, HandleErrorV>>|
                    rs.len() == old(plugins)@.len() && rest_view == concat_outcomes(
                        message@.source,
                        rs,
                    );
                assert(msgs_view(out@) =~= msgs_view(out_before) + rest_view);
                assert(msgs_view(out@) == spec_event_messages(
                    message@.source,
                    result_view(Err(e)),
                    rs,
                ));
            }
            out
        },
    }
}

/// Builds the inbound message for a room event: at this point the room is
/// known only by its identifier.
pub fn build_inbound(channel_id: String, command: String, arguments: Vec<String>) -> (m:
    InboundMessage)
    ensures
        m@.source == SourceV::Room(
            RoomV {
                id: channel_id@,
                name: Seq::empty(),
                attributes: Seq::empty(),
            },
        ),
        m@.command == command@,
        m@.arguments == strs_view(arguments@),
{
    let m = InboundMessage {
        source: Source::Room(Room { id: channel_id, name: String::new(), attributes: Vec::new() }),
        command,
        arguments,
    };
    proof {
        assert(crate::messages::attrs_view(Seq::<(String, String)>::empty()) =~= Seq::<
            (Seq<char>, Seq<char>),
        >::empty());
    }
    m
}

/// The deliverable part of an outbound message: the room identifier and the
/// text for a room-addressed message, nothing for a user-addressed one,
/// which has no delivery path.
pub open spec fn spec_delivery_target(m: OutboundMessageV) -> Option<(Seq<char>, Seq<char>)> {
    match m.destination {
        SourceV::Room(room) => Some((room.id, m.content)),
        SourceV::User(u) => None,
    }
}

/// Extracts where and what the gateway adapter is to send, if anything.
pub fn delivery_target(msg: &OutboundMessage) -> (r: Option<(String, String)>)
    ensures
        (match r {
            Some(p) => Some((p.0@, p.1@)),
            None => None,
        }) == spec_delivery_target(msg@),
{
    match &msg.destination {
        Source::Room(room) => Some((room.id.clone(), msg.content.clone())),
        Source::User(u) => None,
    }
}

// ------------------------------------------------------------------
// Laws of the dispatch policy
// ------------------------------------------------------------------

/// Core-command fallthrough: after an `Unexpected` core outcome the event
/// still reaches the plugin chain — its messages are the failure notice
/// followed by everything the chain delivers.
pub proof fn lemma_core_fallthrough(
    source: SourceV,
    reason: Seq<char>,
    rs: Seq<Result<Seq<OutboundMessageV>, HandleErrorV>>,
)
    ensures
        spec_event_messages(source, Err(HandleErrorV::Unexpected(reason)), rs) == seq![
            OutboundMessageV { destination: source, content: "Whoops! "@ + reason },
        ] + concat_outcomes(source, rs),
{
}

/// An event that the core declines and every plugin declines delivers
/// nothing: no output and no surfaced error.
pub proof fn lemma_unhandled_silent(
    source: SourceV,
    rs: Seq<Result<Seq<OutboundMessageV>, HandleErrorV>>,
)
    requires
        forall|i: int|
            0 <= i < rs.len() ==> rs[i] == Err::<Seq<OutboundMessageV>, HandleErrorV>(
                HandleErrorV::Unhandled,
            ),
    ensures
        spec_event_messages(source, Err(HandleErrorV::Unhandled), rs) == Seq::<
            OutboundMessageV,
        >::empty(),
    decreases rs.len(),
{
    if rs.len() == 0 {
        assert(spec_event_messages(source, Err(HandleErrorV::Unhandled), rs) =~= Seq::<
            OutboundMessageV,
        >::empty());
    } else {
        assert(rs[0] == Err::<Seq<OutboundMessageV>, HandleErrorV>(HandleErrorV::Unhandled));
        assert(forall|i: int|
            0 <= i < rs.drop_first().len() ==> rs.drop_first()[i] == Err::<
                Seq<OutboundMessageV>,
                HandleErrorV,
            >(HandleErrorV::Unhandled));
        lemma_unhandled_silent(source, rs.drop_first());
        assert(spec_event_messages(source, Err(HandleErrorV::Unhandled), rs) =~= Seq::<
            OutboundMessageV,
        >::empty());
    }
}

/// Dispatch fan-out: with one plugin answering and its neighbour declining,
/// the chain delivers exactly the answering plugin's messages.
pub proof fn lemma_fanout_pair(source: SourceV, a: Seq<OutboundMessageV>)
    ensures
        concat_outcomes(
            source,
            seq![
                Ok::<Seq<OutboundMessageV>, HandleErrorV>(a),
                Err::<Seq<OutboundMessageV>, HandleErrorV>(HandleErrorV::Unhandled),
            ],
        ) == a,
{
    let rs = seq![
        Ok::<Seq<OutboundMessageV>, HandleErrorV>(a),
        Err::<Seq<OutboundMessageV>, HandleErrorV>(HandleErrorV::Unhandled),
    ];
    assert(rs[0] == Ok::<Seq<OutboundMessageV>, HandleErrorV>(a));
    assert(rs.drop_first() =~= seq![
        Err::<Seq<OutboundMessageV>, HandleErrorV>(HandleErrorV::Unhandled),
    ]);
    assert(rs.drop_first()[0] == Err::<Seq<OutboundMessageV>, HandleErrorV>(
        HandleErrorV::Unhandled,
    ));
    assert(rs.drop_first().drop_first() =~= Seq::<
        Result<Seq<OutboundMessageV>, HandleErrorV>,
    >::empty());
    assert(concat_outcomes(source, rs.drop_first().drop_first()) == Seq::<
        OutboundMessageV,
    >::empty());
    assert(outcome_view(source, rs[0]) == a);
    assert(outcome_view(source, rs.drop_first()[0]) == Seq::<OutboundMessageV>::empty());
    assert(concat_outcomes(source, rs.drop_first()) == outcome_view(source, rs.drop_first()[0])
        + concat_outcomes(source, rs.drop_first().drop_first()));
    assert(concat_outcomes(source, rs) == outcome_view(source, rs[0]) + concat_outcomes(
        source,
        rs.drop_first(),
    ));
    assert(concat_outcomes(source, rs) =~= a);
}

} // verus!
