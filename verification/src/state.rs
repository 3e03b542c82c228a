use crate::validate::is_inappropriate_of;
use vstd::prelude::*;

verus! {

/// The opaque, runtime-authenticated identity of a caller; stable across a
/// connection and used as the key into the user and pointer tables.
#[derive(Clone, Copy, Debug, PartialEq, Eq, Structural)]
pub struct Identity {
    pub id: u128,
}

/// One row per known caller: created on first connect, never deleted.
#[derive(Debug)]
pub struct User {
    pub identity: Identity,
    /// Unset until the caller picks one.
    pub name: Option<String>,
    pub online: bool,
}

/// The live cursor of one caller, present only while meaningfully positioned.
#[derive(Clone, Copy, Debug)]
pub struct Pointer {
    pub owner: Identity,
    pub position_x: i64,
    pub position_y: i64,
}

/// A named channel for messages; created only by initialization.
#[derive(Debug)]
pub struct Room {
    pub id: u128,
    pub name: String,
}

/// An immutable chat entry; never updated or deleted.
#[derive(Debug)]
pub struct Message {
    pub id: u128,
    pub sender: Identity,
    /// Assigned by the runtime at call time, never caller-supplied.
    pub sent: u64,
    pub text: String,
    pub room: u128,
}

/// Both coordinates lie in the closed interval [0, 100].
pub open spec fn coords_in_bounds(x: i64, y: i64) -> bool {
    0 <= x <= 100 && 0 <= y <= 100
}

pub open spec fn pointer_in_bounds(p: Pointer) -> bool {
    coords_in_bounds(p.position_x, p.position_y)
}

pub open spec fn user_ids_unique(users: Seq<User>) -> bool {
    forall|i: int, j: int|
        0 <= i < j < users.len() ==> #[trigger] users[i].identity != #[trigger] users[j].identity
}

pub open spec fn has_user(users: Seq<User>, id: Identity) -> bool {
    exists|i: int| 0 <= i < users.len() && #[trigger] users[i].identity == id
}

pub open spec fn pointer_owners_unique(pointers: Seq<Pointer>) -> bool {
    forall|i: int, j: int|
        0 <= i < j < pointers.len() ==> #[trigger] pointers[i].owner != #[trigger] pointers[j].owner
}

pub open spec fn has_pointer(pointers: Seq<Pointer>, owner: Identity) -> bool {
    exists|i: int| 0 <= i < pointers.len() && #[trigger] pointers[i].owner == owner
}

pub open spec fn room_ids_unique(rooms: Seq<Room>) -> bool {
    forall|i: int, j: int|
        0 <= i < j < rooms.len() ==> #[trigger] rooms[i].id != #[trigger] rooms[j].id
}

pub open spec fn has_room(rooms: Seq<Room>, id: u128) -> bool {
    exists|i: int| 0 <= i < rooms.len() && #[trigger] rooms[i].id == id
}

pub open spec fn has_room_named(rooms: Seq<Room>, name: Seq<char>) -> bool {
    exists|i: int| 0 <= i < rooms.len() && #[trigger] rooms[i].name@ == name
}

pub open spec fn message_ids_unique(messages: Seq<Message>) -> bool {
    forall|i: int, j: int|
        0 <= i < j < messages.len() ==> #[trigger] messages[i].id != #[trigger] messages[j].id
}

/// Text that message validation lets through: non-empty and not flagged
/// by the content-appropriateness check.
pub open spec fn valid_message_text(text: Seq<char>) -> bool {
    text.len() > 0 && !is_inappropriate_of(text)
}

/// The four shared tables, plus the auto-increment counters that assign
/// fresh room and message ids. One value of this type is the whole state
/// that the operations read and write transactionally.
#[derive(Debug)]
pub struct ChatState {
    pub users: Vec<User>,
    pub pointers: Vec<Pointer>,
    pub rooms: Vec<Room>,
    pub messages: Vec<Message>,
    pub next_room_id: u128,
    pub next_message_id: u128,
}

impl ChatState {
    /// The structural invariant of the store: keys are unique, pointer
    /// coordinates are in bounds, ids stay below their counters, and every
    /// message's room id refers to an existing room.
    pub open spec fn inv(self) -> bool {
        &&& user_ids_unique(self.users@)
        &&& pointer_owners_unique(self.pointers@)
        &&& forall|i: int|
            0 <= i < self.pointers@.len() ==> pointer_in_bounds(#[trigger] self.pointers@[i])
        &&& room_ids_unique(self.rooms@)
        &&& forall|i: int|
            0 <= i < self.rooms@.len() ==> (#[trigger] self.rooms@[i].id) < self.next_room_id
        &&& message_ids_unique(self.messages@)
        &&& forall|i: int|
            0 <= i < self.messages@.len() ==> (#[trigger] self.messages@[i].id)
                < self.next_message_id
        &&& forall|i: int|
            0 <= i < self.messages@.len() ==> has_room(
                self.rooms@,
                #[trigger] self.messages@[i].room,
            )
    }

    /// Every stored message passed validation: its text is non-empty and
    /// was not flagged by the content check.
    pub open spec fn messages_clean(self) -> bool {
        forall|i: int|
            0 <= i < self.messages@.len() ==> valid_message_text(
                (#[trigger] self.messages@[i]).text@,
            )
    }

    /// An empty store, as the runtime hands it to the first operation.
    pub fn new() -> (s: ChatState)
        ensures
            s.inv(),
            s.messages_clean(),
            s.users@ =~= Seq::<User>::empty(),
            s.pointers@ =~= Seq::<Pointer>::empty(),
            s.rooms@ =~= Seq::<Room>::empty(),
            s.messages@ =~= Seq::<Message>::empty(),
            s.next_room_id == 1,
            s.next_message_id == 1,
    {
        ChatState {
            users: Vec::new(),
            pointers: Vec::new(),
            rooms: Vec::new(),
            messages: Vec::new(),
            next_room_id: 1,
            next_message_id: 1,
        }
    }
}

/// Point lookup by primary key in the user table.
pub fn find_user_index(users: &Vec<User>, id: Identity) -> (r: Option<usize>)
    ensures
        match r {
            Some(i) => i < users@.len() && users@[i as int].identity == id,
            None => !has_user(users@, id),
        },
{
    let mut k: usize = 0;
    while k < users.len()
        invariant
            k <= users@.len(),
            forall|j: int| 0 <= j < k ==> #[trigger] users@[j].identity != id,
        decreases users@.len() - k,
    {
        if users[k].identity == id {
            return Some(k);
        }
        k = k + 1;
    }
    None
}

/// Point lookup by primary key in the pointer table.
pub fn find_pointer_index(pointers: &Vec<Pointer>, owner: Identity) -> (r: Option<usize>)
    ensures
        match r {
            Some(i) => i < pointers@.len() && pointers@[i as int].owner == owner,
            None => !has_pointer(pointers@, owner),
        },
{
    let mut k: usize = 0;
    while k < pointers.len()
        invariant
            k <= pointers@.len(),
            forall|j: int| 0 <= j < k ==> #[trigger] pointers@[j].owner != owner,
        decreases pointers@.len() - k,
    {
        if pointers[k].owner == owner {
            return Some(k);
        }
        k = k + 1;
    }
    None
}

/// Point lookup by primary key in the room table.
pub fn room_exists(rooms: &Vec<Room>, id: u128) -> (r: bool)
    ensures
        r == has_room(rooms@, id),
{
    let mut k: usize = 0;
    while k < rooms.len()
        invariant
            k <= rooms@.len(),
            forall|j: int| 0 <= j < k ==> #[trigger] rooms@[j].id != id,
        decreases rooms@.len() - k,
    {
        if rooms[k].id == id {
            return true;
        }
        k = k + 1;
    }
    false
}

/// Secondary-index lookup: is any room named `name`?
pub fn room_with_name_exists(rooms: &Vec<Room>, name: &String) -> (r: bool)
    ensures
        r == has_room_named(rooms@, name@),
{
    let mut k: usize = 0;
    while k < rooms.len()
        invariant
            k <= rooms@.len(),
            forall|j: int| 0 <= j < k ==> #[trigger] rooms@[j].name@ != name@,
        decreases rooms@.len() - k,
    {
        if rooms[k].name == *name {
            return true;
        }
        k = k + 1;
    }
    false
}

} // verus!
