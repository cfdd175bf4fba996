//! The plugin capability set, and the bundled hotline plugin.
//!
//! A plugin is a polymorphic handler with a fixed method set: a name for
//! identification and a `handle` method that is offered every inbound
//! command. Plugins may live in dynamically loaded modules; the bundled
//! hotline plugin is the reference implementation of the contract.

use vstd::prelude::*;
use vstd::string::StringExecFns;

use crate::messages::HandleError;
use crate::messages::HandleResult;
use crate::messages::InboundMessage;
use crate::messages::OutboundMessage;
use crate::state::SlackState;
use crate::text::str_eq;

verus! {

/// A handler that can be offered inbound commands.
pub trait Plugin {
    /// A name describing the plugin, for logging and identification.
    fn name(&self) -> (r: &'static str);

    /// Handles one inbound command against the startup snapshot: the
    /// produced messages on success, `Unhandled` to decline, or
    /// `Unexpected` on failure.
    fn handle(&mut self, state: &SlackState, message: &InboundMessage) -> (r: HandleResult);
}

/// The fixed pool of hotline responses.
pub open spec fn spec_responses() -> Seq<Seq<char>> {
    seq![
        "Corey is on the line, please hold."@,
        "The hotline is ringing."@,
        "Corey will be right with you."@,
        "You have reached the hotline."@,
    ]
}

/// The fixed pool of hotline responses.
fn responses() -> (r: Vec<&'static str>)
    ensures
        r@.len() == spec_responses().len(),
        forall|i: int| 0 <= i < r@.len() ==> r@[i]@ == spec_responses()[i],
{
    let mut r: Vec<&'static str> = Vec::new();
    r.push("Corey is on the line, please hold.");
    r.push("The hotline is ringing.");
    r.push("Corey will be right with you.");
    r.push("You have reached the hotline.");
    r
}

/// Relies on `rand::random_range`: the chosen index lies below `len`.
#[verifier::external_body]
fn pick_index(len: usize) -> (i: usize)
    requires
        len > 0,
    ensures
        i < len,
{
    rand::random_range(0..len)
}

/// A plugin that answers the `corey` command with a hotline response and
/// counts how often it was called.
pub struct CoreyHotlinePlugin {
    /// How many times the `corey` command has been answered.
    pub count: u64,
}

impl CoreyHotlinePlugin {
    /// A fresh plugin that has answered nothing yet.
    pub fn new() -> (p: Self)
        ensures
            p.count == 0,
    {
        CoreyHotlinePlugin { count: 0 }
    }

    /// One of the fixed responses, chosen at random.
    pub fn random_response() -> (r: &'static str)
        ensures
            spec_responses().contains(r@),
    {
        let rs = responses();
        let i = pick_index(rs.len());
        let r = rs[i];
        proof {
            assert(spec_responses()[i as int] == r@);
        }
        r
    }

    /// Counts the call and answers the message's source with a response.
    pub fn command_corey(&mut self, message: &InboundMessage) -> (out: Vec<OutboundMessage>)
        ensures
            final(self).count == if old(self).count < u64::MAX {
                old(self).count + 1
            } else {
                old(self).count as int
            },
            out@.len() == 1,
            out@[0]@.destination == message@.source,
            spec_responses().contains(out@[0]@.content),
    {
        if self.count < u64::MAX {
            self.count = self.count + 1;
        }
        let mut out: Vec<OutboundMessage> = Vec::new();
        out.push(
            OutboundMessage {
                destination: message.source.clone(),
                content: String::from_str(Self::random_response()),
            },
        );
        out
    }
}

impl Plugin for CoreyHotlinePlugin {
    fn name(&self) -> (r: &'static str) {
        "CoreyHotline"
    }

    fn handle(&mut self, state: &SlackState, message: &InboundMessage) -> (r: HandleResult) {
        if str_eq(message.command.as_str(), "corey") {
            Ok(self.command_corey(message))
        } else {
            Err(HandleError::Unhandled)
        }
    }
}

} // verus!
