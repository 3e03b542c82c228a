use chat_core::{ChatState, Identity};
use chat_core::validate::{validate_message, validate_name, validate_pointer};
use chat_core::ChatError;

const DEFAULT_NAMES: [&str; 4] = ["General", "Fun Links", "Book Club", "Videos"];

#[test]
fn init_creates_default_rooms() {
    let mut s = ChatState::new();
    s.init_db();
    assert_eq!(s.rooms.len(), 4);
    for (k, name) in DEFAULT_NAMES.iter().enumerate() {
        assert_eq!(s.rooms[k].name, name.to_string());
        assert_eq!(s.rooms[k].id, 1 + k as u128);
    }
}

#[test]
fn init_idempotent() {
    let mut s = ChatState::new();
    s.init_db();
    s.init_db();
    assert_eq!(s.rooms.len(), 4);
    for (k, name) in DEFAULT_NAMES.iter().enumerate() {
        let copies = s.rooms.iter().filter(|r| r.name == name.to_string()).count();
        assert_eq!(copies, 1, "one room named {name}");
        assert_eq!(s.rooms[k].name, name.to_string());
    }
    assert_eq!(s.next_room_id, 5);
}

#[test]
fn init_skips_existing_names_only() {
    let mut s = ChatState::new();
    s.init_db();
    let c = Identity { id: 3 };
    s.client_connected(c);
    s.init_db();
    assert_eq!(s.rooms.len(), 4);
    assert_eq!(s.users.len(), 1);
}

#[test]
fn validate_name_accepts_nonempty() {
    assert_eq!(validate_name("Alice".to_string()), Ok("Alice".to_string()));
    assert_eq!(validate_name("".to_string()), Err(ChatError::InvalidName));
}

#[test]
fn validate_message_checks_content() {
    assert_eq!(validate_message("hello".to_string()), Ok("hello".to_string()));
    assert_eq!(validate_message("".to_string()), Err(ChatError::EmptyMessage));
    assert_eq!(
        validate_message("crap".to_string()),
        Err(ChatError::InappropriateContent)
    );
}

#[test]
fn validate_pointer_checks_bounds() {
    assert_eq!(validate_pointer(10, 20), Ok((10, 20)));
    assert_eq!(validate_pointer(0, 100), Ok((0, 100)));
    assert_eq!(validate_pointer(-1, 50), Err(ChatError::OutOfBounds));
    assert_eq!(validate_pointer(50, 101), Err(ChatError::OutOfBounds));
}
