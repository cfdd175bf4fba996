use botcore::HandleError;
use botcore::HandleResult;
use botcore::InboundMessage;
use botcore::OutboundMessage;
use botcore::Plugin;
use botcore::PluginError;
use botcore::Room;
use botcore::Source;
use botcore::User;
use botcore::dispatch::CoreDecision;
use botcore::dispatch::build_inbound;
use botcore::dispatch::core_commands;
use botcore::dispatch::core_load_report;
use botcore::dispatch::delivery_target;
use botcore::dispatch::dispatch_plugins;
use botcore::dispatch::dispatch_with_core;
use botcore::dispatch::outcome_messages;
use botcore::state::SlackState;

/// A test double: answers one fixed command with one fixed text, declines
/// everything else, and remembers how often it was invoked.
struct ScriptedPlugin {
    answers: &'static str,
    reply: &'static str,
    invoked: u32,
}

impl Plugin for ScriptedPlugin {
    fn name(&self) -> &'static str {
        "Scripted"
    }

    fn handle(&mut self, _state: &SlackState, message: &InboundMessage) -> HandleResult {
        self.invoked += 1;
        if message.command == self.answers {
            Ok(vec![OutboundMessage {
                destination: message.source.clone(),
                content: self.reply.to_string(),
            }])
        } else {
            Err(HandleError::Unhandled)
        }
    }
}

fn room_message(command: &str, arguments: Vec<String>) -> InboundMessage {
    build_inbound("C1".to_string(), command.to_string(), arguments)
}

#[test]
fn fan_out_delivers_only_the_answering_plugin() {
    let state = SlackState::new();
    let mut plugins = vec![
        ScriptedPlugin { answers: "x", reply: "from A", invoked: 0 },
        ScriptedPlugin { answers: "y", reply: "from B", invoked: 0 },
    ];
    let message = room_message("x", vec![]);
    let out = dispatch_plugins(&state, &mut plugins, &message);
    assert_eq!(out.len(), 1);
    assert_eq!(out[0].content, "from A");
    assert_eq!(plugins[0].invoked, 1);
    assert_eq!(plugins[1].invoked, 1);
}

#[test]
fn every_plugin_answers_the_same_event() {
    let state = SlackState::new();
    let mut plugins = vec![
        ScriptedPlugin { answers: "x", reply: "first", invoked: 0 },
        ScriptedPlugin { answers: "x", reply: "second", invoked: 0 },
    ];
    let message = room_message("x", vec![]);
    let out = dispatch_plugins(&state, &mut plugins, &message);
    assert_eq!(out.len(), 2);
    assert_eq!(out[0].content, "first");
    assert_eq!(out[1].content, "second");
}

#[test]
fn core_failure_still_reaches_the_plugin_chain() {
    let state = SlackState::new();
    let mut plugins = vec![ScriptedPlugin { answers: "x", reply: "handled anyway", invoked: 0 }];
    let message = room_message("x", vec![]);
    let core: HandleResult = Err(HandleError::Unexpected("core broke".to_string()));
    let out = dispatch_with_core(&state, &mut plugins, &message, core);
    assert_eq!(out.len(), 2);
    assert_eq!(out[0].content, "Whoops! core broke");
    assert_eq!(out[1].content, "handled anyway");
    assert_eq!(plugins[0].invoked, 1);
}

#[test]
fn core_success_ends_the_event() {
    let state = SlackState::new();
    let mut plugins = vec![ScriptedPlugin { answers: "x", reply: "never", invoked: 0 }];
    let message = room_message("x", vec![]);
    let core: HandleResult = Ok(vec![OutboundMessage {
        destination: message.source.clone(),
        content: "core answer".to_string(),
    }]);
    let out = dispatch_with_core(&state, &mut plugins, &message, core);
    assert_eq!(out.len(), 1);
    assert_eq!(out[0].content, "core answer");
    assert_eq!(plugins[0].invoked, 0);
}

#[test]
fn unknown_command_is_silent() {
    let state = SlackState::new();
    let mut plugins = vec![ScriptedPlugin { answers: "x", reply: "no", invoked: 0 }];
    let message = room_message("nobody-has-this", vec![]);
    let core = match core_commands(&message) {
        CoreDecision::Done(r) => r,
        CoreDecision::Load(_) => panic!("not a load"),
    };
    assert!(matches!(core, Err(HandleError::Unhandled)));
    let out = dispatch_with_core(&state, &mut plugins, &message, core);
    assert!(out.is_empty());
    assert_eq!(plugins[0].invoked, 1);
}

#[test]
fn version_command_answers_from_the_core() {
    let message = room_message("version", vec![]);
    match core_commands(&message) {
        CoreDecision::Done(Ok(msgs)) => {
            assert_eq!(msgs.len(), 1);
            assert_eq!(msgs[0].content, "I am version 1.0");
        }
        _ => panic!("version must be answered by the core"),
    }
}

#[test]
fn load_command_asks_for_the_reference() {
    let message = room_message("load", vec!["corey-hotline".to_string()]);
    match core_commands(&message) {
        CoreDecision::Load(name) => assert_eq!(name, "corey-hotline"),
        _ => panic!("load with a reference must ask for a load"),
    }
}

#[test]
fn load_command_without_reference_fails() {
    let message = room_message("load", vec![]);
    match core_commands(&message) {
        CoreDecision::Done(Err(HandleError::Unexpected(reason))) => {
            assert_eq!(reason, "load requires a plugin reference");
        }
        _ => panic!("load without a reference must fail"),
    }
}

#[test]
fn load_report_names_the_reference() {
    let message = room_message("load", vec!["corey-hotline".to_string()]);
    let r = core_load_report(&message.source, "corey-hotline", Ok(()));
    let msgs = r.unwrap();
    assert_eq!(msgs.len(), 1);
    assert_eq!(msgs[0].content, "Loaded corey-hotline");
}

#[test]
fn load_report_names_each_loader_error() {
    let message = room_message("load", vec!["x".to_string()]);
    for (e, text) in [
        (PluginError::InvalidLibrary, "InvalidLibrary"),
        (PluginError::InvalidPluginConstructor, "InvalidPluginConstructor"),
        (PluginError::AlreadyLoaded, "AlreadyLoaded"),
    ] {
        match core_load_report(&message.source, "x", Err(e)) {
            Err(HandleError::Unexpected(reason)) => assert_eq!(reason, text),
            _ => panic!("a loader error must surface as a failure"),
        }
    }
}

#[test]
fn unexpected_outcome_becomes_a_notice_to_the_source() {
    let message = room_message("x", vec![]);
    let out = outcome_messages(
        &message.source,
        Err(HandleError::Unexpected("it broke".to_string())),
    );
    assert_eq!(out.len(), 1);
    assert_eq!(out[0].content, "Whoops! it broke");
    match &out[0].destination {
        Source::Room(room) => assert_eq!(room.id, "C1"),
        _ => panic!("the notice must go back to the source"),
    }
}

#[test]
fn unhandled_outcome_is_silent() {
    let message = room_message("x", vec![]);
    let out = outcome_messages(&message.source, Err(HandleError::Unhandled));
    assert!(out.is_empty());
}

#[test]
fn only_room_messages_are_deliverable() {
    let room_msg = OutboundMessage {
        destination: Source::Room(Room {
            id: "C9".to_string(),
            name: String::new(),
            attributes: vec![],
        }),
        content: "hi".to_string(),
    };
    assert_eq!(
        delivery_target(&room_msg),
        Some(("C9".to_string(), "hi".to_string()))
    );

    let user_msg = OutboundMessage {
        destination: Source::User(User {
            id: "U1".to_string(),
            username: "u".to_string(),
            name: "n".to_string(),
            attributes: vec![],
        }),
        content: "hi".to_string(),
    };
    assert_eq!(delivery_target(&user_msg), None);
}
