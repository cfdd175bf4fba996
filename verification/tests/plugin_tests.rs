use botcore::HandleError;
use botcore::Plugin;
use botcore::dispatch::build_inbound;
use botcore::plugin::CoreyHotlinePlugin;
use botcore::state::SlackState;

const RESPONSES: [&str; 4] = [
    "Corey is on the line, please hold.",
    "The hotline is ringing.",
    "Corey will be right with you.",
    "You have reached the hotline.",
];

#[test]
fn the_plugin_has_a_name() {
    let p = CoreyHotlinePlugin::new();
    assert_eq!(p.name(), "CoreyHotline");
}

#[test]
fn random_response_comes_from_the_pool() {
    for _ in 0..32 {
        let r = CoreyHotlinePlugin::random_response();
        assert!(RESPONSES.contains(&r));
    }
}

#[test]
fn corey_command_is_answered_and_counted() {
    let state = SlackState::new();
    let mut p = CoreyHotlinePlugin::new();
    let message = build_inbound("C1".to_string(), "corey".to_string(), vec![]);

    let out = p.handle(&state, &message).unwrap();
    assert_eq!(out.len(), 1);
    assert!(RESPONSES.contains(&out[0].content.as_str()));
    assert_eq!(p.count, 1);

    let again = p.handle(&state, &message).unwrap();
    assert_eq!(again.len(), 1);
    assert_eq!(p.count, 2);
}

#[test]
fn other_commands_are_declined() {
    let state = SlackState::new();
    let mut p = CoreyHotlinePlugin::new();
    let message = build_inbound("C1".to_string(), "version".to_string(), vec![]);
    assert!(matches!(
        p.handle(&state, &message),
        Err(HandleError::Unhandled)
    ));
    assert_eq!(p.count, 0);
}
