use chat_core::{ChatError, ChatState, Identity};

fn connected(id: u128) -> (ChatState, Identity) {
    let mut s = ChatState::new();
    let c = Identity { id };
    s.client_connected(c);
    (s, c)
}

#[test]
fn set_name_unknown_user_rejected() {
    let mut s = ChatState::new();
    let c = Identity { id: 1 };
    let r = s.set_name(c, "Alice".to_string());
    assert_eq!(r, Err(ChatError::UnknownUser));
    assert_eq!(s.users.len(), 0);
}

#[test]
fn set_name_empty_rejected_state_unchanged() {
    let (mut s, c) = connected(1);
    s.set_name(c, "Alice".to_string()).unwrap();
    let r = s.set_name(c, "".to_string());
    assert_eq!(r, Err(ChatError::InvalidName));
    assert_eq!(s.users.len(), 1);
    assert_eq!(s.users[0].name, Some("Alice".to_string()));
    assert!(s.users[0].online);
}

#[test]
fn set_name_stores_name() {
    let (mut s, c) = connected(1);
    let r = s.set_name(c, "Alice".to_string());
    assert_eq!(r, Ok(()));
    assert_eq!(s.users.len(), 1);
    assert_eq!(s.users[0].identity, c);
    assert_eq!(s.users[0].name, Some("Alice".to_string()));
    assert!(s.users[0].online);
}

#[test]
fn send_message_room_not_found() {
    let (mut s, c) = connected(1);
    let r = s.send_message(c, "hi".to_string(), 42, 1000);
    assert_eq!(r, Err(ChatError::RoomNotFound));
    assert_eq!(s.messages.len(), 0);
}

#[test]
fn send_message_room_checked_before_text() {
    // a nonexistent room short-circuits before the text is judged at all
    let (mut s, c) = connected(1);
    let r = s.send_message(c, "".to_string(), 42, 1000);
    assert_eq!(r, Err(ChatError::RoomNotFound));
    let r = s.send_message(c, "crap".to_string(), 42, 1000);
    assert_eq!(r, Err(ChatError::RoomNotFound));
    assert_eq!(s.messages.len(), 0);
}

#[test]
fn send_message_empty_rejected() {
    let (mut s, c) = connected(1);
    s.init_db();
    let room = s.rooms[0].id;
    let r = s.send_message(c, "".to_string(), room, 1000);
    assert_eq!(r, Err(ChatError::EmptyMessage));
    assert_eq!(s.messages.len(), 0);
}

#[test]
fn send_message_inappropriate_rejected() {
    let (mut s, c) = connected(1);
    s.init_db();
    let room = s.rooms[0].id;
    let r = s.send_message(c, "crap".to_string(), room, 1000);
    assert_eq!(r, Err(ChatError::InappropriateContent));
    assert_eq!(s.messages.len(), 0);
}

#[test]
fn send_message_commits_one_row() {
    let (mut s, c) = connected(1);
    s.init_db();
    let room = s.rooms[0].id;
    let r = s.send_message(c, "hello room".to_string(), room, 1234);
    assert_eq!(r, Ok(()));
    assert_eq!(s.messages.len(), 1);
    assert_eq!(s.messages[0].sender, c);
    assert_eq!(s.messages[0].room, room);
    assert_eq!(s.messages[0].text, "hello room".to_string());
    assert_eq!(s.messages[0].sent, 1234);
}

#[test]
fn send_message_twice_two_rows() {
    // sends are not deduplicated: the second call commits a second,
    // distinct message
    let (mut s, c) = connected(1);
    s.init_db();
    let room = s.rooms[0].id;
    s.send_message(c, "hello room".to_string(), room, 1234).unwrap();
    s.send_message(c, "hello room".to_string(), room, 1234).unwrap();
    assert_eq!(s.messages.len(), 2);
    assert_ne!(s.messages[0].id, s.messages[1].id);
}

#[test]
fn pointer_out_of_bounds_rejected() {
    let (mut s, c) = connected(1);
    let r = s.set_pointer_position(c, -1, 50);
    assert_eq!(r, Err(ChatError::InvalidPointer));
    let r = s.set_pointer_position(c, 50, 101);
    assert_eq!(r, Err(ChatError::InvalidPointer));
    assert_eq!(s.pointers.len(), 0);
}

#[test]
fn pointer_at_bounds_accepted() {
    let (mut s, c) = connected(1);
    assert_eq!(s.set_pointer_position(c, 0, 0), Ok(()));
    assert_eq!(s.set_pointer_position(c, 100, 100), Ok(()));
    assert_eq!(s.pointers.len(), 1);
}

#[test]
fn pointer_upsert_updates_in_place() {
    let (mut s, c) = connected(1);
    s.set_pointer_position(c, 10, 20).unwrap();
    s.set_pointer_position(c, 30, 40).unwrap();
    assert_eq!(s.pointers.len(), 1);
    assert_eq!(s.pointers[0].owner, c);
    assert_eq!(s.pointers[0].position_x, 30);
    assert_eq!(s.pointers[0].position_y, 40);
}

#[test]
fn pointer_without_user_row_allowed() {
    // the pointer operation does not require a prior connect
    let mut s = ChatState::new();
    let c = Identity { id: 9 };
    assert_eq!(s.set_pointer_position(c, 5, 5), Ok(()));
    assert_eq!(s.pointers.len(), 1);
}

#[test]
fn connect_creates_user() {
    let (s, c) = connected(1);
    assert_eq!(s.users.len(), 1);
    assert_eq!(s.users[0].identity, c);
    assert_eq!(s.users[0].name, None);
    assert!(s.users[0].online);
}

#[test]
fn connect_twice_idempotent() {
    let (mut s, c) = connected(1);
    s.set_name(c, "Alice".to_string()).unwrap();
    s.client_connected(c);
    assert_eq!(s.users.len(), 1);
    assert_eq!(s.users[0].name, Some("Alice".to_string()));
    assert!(s.users[0].online);
}

#[test]
fn disconnect_sets_offline_and_drops_pointer() {
    let (mut s, c) = connected(1);
    s.set_name(c, "Alice".to_string()).unwrap();
    s.set_pointer_position(c, 10, 20).unwrap();
    s.identity_disconnected(c);
    assert_eq!(s.users.len(), 1);
    assert!(!s.users[0].online);
    assert_eq!(s.users[0].name, Some("Alice".to_string()));
    assert_eq!(s.pointers.len(), 0);
}

#[test]
fn reconnect_restores_presence() {
    let (mut s, c) = connected(1);
    s.set_name(c, "Alice".to_string()).unwrap();
    s.identity_disconnected(c);
    s.client_connected(c);
    assert_eq!(s.users.len(), 1);
    assert!(s.users[0].online);
    assert_eq!(s.users[0].name, Some("Alice".to_string()));
}

#[test]
fn disconnect_unknown_user_no_mutation() {
    let mut s = ChatState::new();
    let c = Identity { id: 1 };
    let stranger = Identity { id: 2 };
    s.set_pointer_position(c, 10, 20).unwrap();
    s.identity_disconnected(stranger);
    assert_eq!(s.users.len(), 0);
    assert_eq!(s.pointers.len(), 1);
}

#[test]
fn error_messages() {
    assert_eq!(ChatError::InvalidName.message(), "Names must not be empty");
    assert_eq!(ChatError::UnknownUser.message(), "Cannot set name for unknown user");
    assert_eq!(ChatError::RoomNotFound.message(), "Room not found");
    assert_eq!(ChatError::EmptyMessage.message(), "Messages must not be empty");
    assert_eq!(ChatError::InappropriateContent.message(), "Message is inappropriate");
    assert_eq!(ChatError::OutOfBounds.message(), "Position is out of bounds");
    assert_eq!(ChatError::InvalidPointer.message(), "Invalid point");
}
