use botcore::Room;
use botcore::State;
use botcore::User;
use botcore::messages::RoomKind;
use botcore::messages::room_from_parts;
use botcore::messages::user_from_parts;
use botcore::state::SlackState;

#[test]
fn snapshot_starts_empty() {
    let s = SlackState::new();
    assert!(s.me().is_none());
    assert!(s.users().is_empty());
    assert!(s.rooms().is_empty());
}

#[test]
fn snapshot_keeps_what_the_handshake_supplied() {
    let mut s = SlackState::new();
    s.set_me(User {
        id: "U0".to_string(),
        username: "bot".to_string(),
        name: "The Bot".to_string(),
        attributes: vec![],
    });
    s.add_user(user_from_parts(
        Some("U1".to_string()),
        Some("alice".to_string()),
        None,
    ));
    s.add_room(room_from_parts(
        Some("C1".to_string()),
        Some("general".to_string()),
        RoomKind::Channel,
    ));
    s.add_room(room_from_parts(None, None, RoomKind::Mpim));

    assert_eq!(s.me().unwrap().id, "U0");

    let users = s.users();
    assert_eq!(users.len(), 1);
    assert_eq!(users[0].id, "U1");
    assert_eq!(users[0].username, "alice");
    assert_eq!(users[0].name, "");

    let rooms = s.rooms();
    assert_eq!(rooms.len(), 2);
    assert_eq!(rooms[0].id, "C1");
    assert_eq!(rooms[0].name, "general");
    assert_eq!(
        rooms[0].attributes,
        vec![("type".to_string(), "channel".to_string())]
    );
    assert_eq!(rooms[1].id, "");
    assert_eq!(
        rooms[1].attributes,
        vec![("type".to_string(), "mpim".to_string())]
    );
}

#[test]
fn room_kinds_tag_their_collection() {
    let mpim = room_from_parts(Some("a".to_string()), None, RoomKind::Mpim);
    let channel = room_from_parts(Some("b".to_string()), None, RoomKind::Channel);
    let group = room_from_parts(Some("c".to_string()), None, RoomKind::Group);
    assert_eq!(mpim.attributes[0].1, "mpim");
    assert_eq!(channel.attributes[0].1, "channel");
    assert_eq!(group.attributes[0].1, "group");
}

#[test]
fn attribute_lookup_finds_the_first_match() {
    let room = Room {
        id: "C3".to_string(),
        name: "n".to_string(),
        attributes: vec![
            ("type".to_string(), "channel".to_string()),
            ("type".to_string(), "shadowed".to_string()),
            ("topic".to_string(), "news".to_string()),
        ],
    };
    assert_eq!(room.attribute("type"), Some("channel".to_string()));
    assert_eq!(room.attribute("topic"), Some("news".to_string()));
    assert_eq!(room.attribute("missing"), None);

    let user = User {
        id: "U2".to_string(),
        username: "bob".to_string(),
        name: "Bob".to_string(),
        attributes: vec![],
    };
    assert_eq!(user.attribute("type"), None);
}

#[test]
fn cloned_records_keep_their_fields() {
    let room = Room {
        id: "C2".to_string(),
        name: "quiet".to_string(),
        attributes: vec![("type".to_string(), "group".to_string())],
    };
    let copy = room.clone();
    assert_eq!(copy.id, room.id);
    assert_eq!(copy.name, room.name);
    assert_eq!(copy.attributes, room.attributes);
}
