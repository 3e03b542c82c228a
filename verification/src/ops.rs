use crate::errors::ChatError;
use crate::state::{
    coords_in_bounds, find_pointer_index, find_user_index, has_pointer, has_room, has_room_named,
    has_user, room_exists, room_with_name_exists, ChatState, Identity, Message, Pointer, Room,
    User,
};
use crate::validate::{validate_message, validate_name, validate_pointer};
use vstd::prelude::*;

verus! {

/// The user table is untouched between the two states.
pub open spec fn users_unchanged(pre: ChatState, post: ChatState) -> bool {
    post.users@ == pre.users@
}

pub open spec fn pointers_unchanged(pre: ChatState, post: ChatState) -> bool {
    post.pointers@ == pre.pointers@
}

pub open spec fn rooms_unchanged(pre: ChatState, post: ChatState) -> bool {
    post.rooms@ == pre.rooms@ && post.next_room_id == pre.next_room_id
}

pub open spec fn messages_unchanged(pre: ChatState, post: ChatState) -> bool {
    post.messages@ == pre.messages@ && post.next_message_id == pre.next_message_id
}

/// A successful rename: the caller's row, and only it, now carries `name`;
/// identity and online status are untouched, as is every other table.
pub open spec fn set_name_applied(
    pre: ChatState,
    post: ChatState,
    caller: Identity,
    name: String,
) -> bool {
    &&& pointers_unchanged(pre, post)
    &&& rooms_unchanged(pre, post)
    &&& messages_unchanged(pre, post)
    &&& exists|i: int|
        0 <= i < pre.users@.len() && (#[trigger] pre.users@[i]).identity == caller
            && post.users@ =~= pre.users@.update(
            i,
            User { identity: caller, name: Some(name), online: pre.users@[i].online },
        )
}

/// A successful send: exactly one new message row, carrying the fresh id,
/// the caller as sender, the runtime timestamp and the validated text; no
/// other table moves.
pub open spec fn message_sent(
    pre: ChatState,
    post: ChatState,
    caller: Identity,
    text: String,
    room_id: u128,
    now: u64,
) -> bool {
    &&& users_unchanged(pre, post)
    &&& pointers_unchanged(pre, post)
    &&& rooms_unchanged(pre, post)
    &&& post.messages@ =~= pre.messages@.push(
        Message {
            id: pre.next_message_id,
            sender: caller,
            sent: now,
            text: text,
            room: room_id,
        },
    )
    &&& post.next_message_id == pre.next_message_id + 1
}

/// A successful pointer move: an upsert by owner. An existing row is updated
/// in place; otherwise one new row appears. No other table moves.
pub open spec fn pointer_set_applied(
    pre: ChatState,
    post: ChatState,
    caller: Identity,
    x: i64,
    y: i64,
) -> bool {
    &&& users_unchanged(pre, post)
    &&& rooms_unchanged(pre, post)
    &&& messages_unchanged(pre, post)
    &&& if has_pointer(pre.pointers@, caller) {
        exists|i: int|
            0 <= i < pre.pointers@.len() && (#[trigger] pre.pointers@[i]).owner == caller
                && post.pointers@ =~= pre.pointers@.update(
                i,
                Pointer { owner: caller, position_x: x, position_y: y },
            )
    } else {
        post.pointers@ =~= pre.pointers@.push(
            Pointer { owner: caller, position_x: x, position_y: y },
        )
    }
}

/// A connect: a returning caller's row flips to online with name untouched;
/// a never-seen caller gets a fresh row, online and with no name yet.
pub open spec fn connect_applied(pre: ChatState, post: ChatState, caller: Identity) -> bool {
    &&& pointers_unchanged(pre, post)
    &&& rooms_unchanged(pre, post)
    &&& messages_unchanged(pre, post)
    &&& if has_user(pre.users@, caller) {
        exists|i: int|
            0 <= i < pre.users@.len() && (#[trigger] pre.users@[i]).identity == caller
                && post.users@ =~= pre.users@.update(
                i,
                User { identity: caller, name: pre.users@[i].name, online: true },
            )
    } else {
        post.users@ =~= pre.users@.push(User { identity: caller, name: None, online: true })
    }
}

/// A disconnect: a known caller's row flips to offline and the caller's
/// pointer row, if any, is gone; for an unknown caller nothing moves at all.
pub open spec fn disconnect_applied(pre: ChatState, post: ChatState, caller: Identity) -> bool {
    &&& rooms_unchanged(pre, post)
    &&& messages_unchanged(pre, post)
    &&& if has_user(pre.users@, caller) {
        &&& exists|i: int|
            0 <= i < pre.users@.len() && (#[trigger] pre.users@[i]).identity == caller
                && post.users@ =~= pre.users@.update(
                i,
                User { identity: caller, name: pre.users@[i].name, online: false },
            )
        &&& if has_pointer(pre.pointers@, caller) {
            exists|j: int|
                0 <= j < pre.pointers@.len() && (#[trigger] pre.pointers@[j]).owner == caller
                    && post.pointers@ =~= pre.pointers@.remove(j)
        } else {
            post.pointers@ == pre.pointers@
        }
    } else {
        post.users@ == pre.users@ && post.pointers@ == pre.pointers@
    }
}

/// One step of initialization: after it, a room named `name` exists. Nothing
/// happens if one already did; otherwise exactly one room is appended, with
/// the next fresh id.
pub open spec fn room_ensured(pre: ChatState, post: ChatState, name: Seq<char>) -> bool {
    &&& users_unchanged(pre, post)
    &&& pointers_unchanged(pre, post)
    &&& messages_unchanged(pre, post)
    &&& if has_room_named(pre.rooms@, name) {
        post.rooms@ == pre.rooms@ && post.next_room_id == pre.next_room_id
    } else {
        &&& post.rooms@.len() == pre.rooms@.len() + 1
        &&& forall|i: int| 0 <= i < pre.rooms@.len() ==> post.rooms@[i] == pre.rooms@[i]
        &&& post.rooms@.last().id == pre.next_room_id
        &&& post.rooms@.last().name@ == name
        &&& post.next_room_id == pre.next_room_id + 1
    }
}

/// The fixed list of default room names that initialization guarantees.
pub open spec fn default_room_names() -> Seq<Seq<char>> {
    seq!["General"@, "Fun Links"@, "Book Club"@, "Videos"@]
}

/// A full initialization: each default room name is ensured, in the order
/// of the list, each step guarded by its own existence check.
pub open spec fn init_applied(pre: ChatState, post: ChatState) -> bool {
    exists|a: ChatState, b: ChatState, c: ChatState|
        {
            &&& #[trigger] room_ensured(pre, a, default_room_names()[0])
            &&& #[trigger] room_ensured(a, b, default_room_names()[1])
            &&& #[trigger] room_ensured(b, c, default_room_names()[2])
            &&& room_ensured(c, post, default_room_names()[3])
        }
}

impl ChatState {
    /// Clients invoke this operation to set their display names. The name
    /// must be non-empty and the caller must have connected at least once;
    /// only the caller's `name` field changes, and only on success.
    pub fn set_name(&mut self, caller: Identity, name: String) -> (r: Result<(), ChatError>)
        requires
            old(self).inv(),
        ensures
            final(self).inv(),
            old(self).messages_clean() ==> final(self).messages_clean(),
            r == Ok::<(), ChatError>(()) <==> (name@.len() > 0 && has_user(
                old(self).users@,
                caller,
            )),
            name@.len() == 0 ==> r == Err::<(), ChatError>(ChatError::InvalidName),
            name@.len() > 0 && !has_user(old(self).users@, caller) ==> r == Err::<
                (),
                ChatError,
            >(ChatError::UnknownUser),
            r is Err ==> *final(self) == *old(self),
            r is Ok ==> set_name_applied(*old(self), *final(self), caller, name),
    {
        let name = match validate_name(name) {
            Ok(n) => n,
            Err(e) => {
                return Err(e);
            },
        };
        match find_user_index(&self.users, caller) {
            Some(i) => {
                let mut row = self.users.remove(i);
                row.name = Some(name);
                self.users.insert(i, row);
                proof {
                    let pre = *old(self);
                    assert(self.users@ =~= pre.users@.update(
                        i as int,
                        User {
                            identity: caller,
                            name: Some(name),
                            online: pre.users@[i as int].online,
                        },
                    ));
                }
                Ok(())
            },
            None => Err(ChatError::UnknownUser),
        }
    }

    /// Clients invoke this operation to send a message into a room. The
    /// room must exist (checked before the text is judged at all) and the
    /// text must pass validation; then exactly one immutable message row is
    /// committed, stamped with the runtime-supplied time `now`.
    pub fn send_message(&mut self, caller: Identity, text: String, room_id: u128, now: u64) -> (r:
        Result<(), ChatError>)
        requires
            old(self).inv(),
            old(self).next_message_id < u128::MAX,
        ensures
            final(self).inv(),
            old(self).messages_clean() ==> final(self).messages_clean(),
            r == Ok::<(), ChatError>(()) <==> (has_room(old(self).rooms@, room_id) && text@.len()
                > 0 && !crate::validate::is_inappropriate_of(text@)),
            !has_room(old(self).rooms@, room_id) ==> r == Err::<(), ChatError>(
                ChatError::RoomNotFound,
            ),
            has_room(old(self).rooms@, room_id) && text@.len() == 0 ==> r == Err::<
                (),
                ChatError,
            >(ChatError::EmptyMessage),
            has_room(old(self).rooms@, room_id) && text@.len() > 0
                && crate::validate::is_inappropriate_of(text@) ==> r == Err::<(), ChatError>(
                ChatError::InappropriateContent,
            ),
            r is Err ==> *final(self) == *old(self),
            r is Ok ==> message_sent(*old(self), *final(self), caller, text, room_id, now),
    {
        if !room_exists(&self.rooms, room_id) {
            return Err(ChatError::RoomNotFound);
        }
        let text = match validate_message(text) {
            Ok(t) => t,
            Err(e) => {
                return Err(e);
            },
        };
        let id = self.next_message_id;
        self.messages.push(Message { id, sender: caller, sent: now, text, room: room_id });
        self.next_message_id = id + 1;
        proof {
            let pre = *old(self);
            let n = self.messages@.len();
            assert forall|a: int, b: int| 0 <= a < b < n implies (#[trigger] self.messages@[a].id)
                != (#[trigger] self.messages@[b].id) by {
                if b == n - 1 {
                    assert(pre.messages@[a].id < pre.next_message_id);
                }
            }
        }
        Ok(())
    }

    /// Clients invoke this operation to broadcast their cursor. Out-of-range
    /// coordinates surface as the one generic `InvalidPointer` rejection;
    /// in-range ones upsert the caller's single pointer row.
    pub fn set_pointer_position(&mut self, caller: Identity, x_position: i64, y_position: i64) -> (
    r: Result<(), ChatError>)
        requires
            old(self).inv(),
        ensures
            final(self).inv(),
            old(self).messages_clean() ==> final(self).messages_clean(),
            r == Ok::<(), ChatError>(()) <==> coords_in_bounds(x_position, y_position),
            !coords_in_bounds(x_position, y_position) ==> r == Err::<(), ChatError>(
                ChatError::InvalidPointer,
            ) && *final(self) == *old(self),
            r is Ok ==> pointer_set_applied(
                *old(self),
                *final(self),
                caller,
                x_position,
                y_position,
            ),
    {
        let (x, y) = match validate_pointer(x_position, y_position) {
            Ok(p) => p,
            Err(_) => {
                return Err(ChatError::InvalidPointer);
            },
        };
        match find_pointer_index(&self.pointers, caller) {
            Some(i) => {
                self.pointers.set(i, Pointer { owner: caller, position_x: x, position_y: y });
            },
            None => {
                self.pointers.push(Pointer { owner: caller, position_x: x, position_y: y });
            },
        }
        Ok(())
    }

    /// Runtime hook for a client connecting: flips a returning caller to
    /// online, or registers a never-seen caller with no name yet. It cannot
    /// fail.
    pub fn client_connected(&mut self, caller: Identity)
        requires
            old(self).inv(),
        ensures
            final(self).inv(),
            old(self).messages_clean() ==> final(self).messages_clean(),
            connect_applied(*old(self), *final(self), caller),
    {
        match find_user_index(&self.users, caller) {
            Some(i) => {
                let mut row = self.users.remove(i);
                row.online = true;
                self.users.insert(i, row);
                proof {
                    let pre = *old(self);
                    assert(self.users@ =~= pre.users@.update(
                        i as int,
                        User {
                            identity: caller,
                            name: pre.users@[i as int].name,
                            online: true,
                        },
                    ));
                }
            },
            None => {
                self.users.push(User { identity: caller, name: None, online: true });
            },
        }
    }

    /// Runtime hook for a client disconnecting: flips a known caller to
    /// offline and drops the caller's pointer row so no stale cursor
    /// lingers. For an unknown caller — unreachable under normal operation —
    /// it changes nothing and raises nothing.
    pub fn identity_disconnected(&mut self, caller: Identity)
        requires
            old(self).inv(),
        ensures
            final(self).inv(),
            old(self).messages_clean() ==> final(self).messages_clean(),
            disconnect_applied(*old(self), *final(self), caller),
    {
        match find_user_index(&self.users, caller) {
            Some(i) => {
                let mut row = self.users.remove(i);
                row.online = false;
                self.users.insert(i, row);
                proof {
                    let pre = *old(self);
                    assert(self.users@ =~= pre.users@.update(
                        i as int,
                        User {
                            identity: caller,
                            name: pre.users@[i as int].name,
                            online: false,
                        },
                    ));
                }
                match find_pointer_index(&self.pointers, caller) {
                    Some(j) => {
                        self.pointers.remove(j);
                    },
                    None => (),
                }
            },
            None => (),
        }
    }

    /// One guarded step of initialization: insert a room named `name` with
    /// a fresh id unless one with that name already exists.
    fn ensure_room(&mut self, name: &str)
        requires
            old(self).inv(),
            old(self).next_room_id < u128::MAX,
        ensures
            final(self).inv(),
            final(self).messages_clean() == old(self).messages_clean(),
            room_ensured(*old(self), *final(self), name@),
            final(self).next_room_id <= old(self).next_room_id + 1,
            has_room_named(final(self).rooms@, name@),
    {
        let fresh = String::from_str(name);
        if !room_with_name_exists(&self.rooms, &fresh) {
            let id = self.next_room_id;
            self.rooms.push(Room { id, name: fresh });
            self.next_room_id = id + 1;
            proof {
                let pre = *old(self);
                assert forall|a: int, b: int| 0 <= a < b < self.rooms@.len() implies (
                #[trigger] self.rooms@[a].id) != (#[trigger] self.rooms@[b].id) by {
                    if b == self.rooms@.len() - 1 {
                        assert(pre.rooms@[a].id < pre.next_room_id);
                    }
                }
                assert forall|k: int| 0 <= k < self.messages@.len() implies has_room(
                    self.rooms@,
                    (#[trigger] self.messages@[k]).room,
                ) by {
                    let w = choose|w: int|
                        0 <= w < pre.rooms@.len() && (#[trigger] pre.rooms@[w]).id
                            == pre.messages@[k].room;
                    assert(self.rooms@[w].id == self.messages@[k].room);
                }
                assert(self.rooms@.last().name@ == name@);
            }
        }
    }

    /// Runtime hook run once at module start: creates each default room
    /// whose name is not taken yet. Idempotent, because every insert is
    /// individually guarded by an existence check.
    pub fn init_db(&mut self)
        requires
            old(self).inv(),
            old(self).next_room_id <= u128::MAX - 4,
        ensures
            final(self).inv(),
            old(self).messages_clean() ==> final(self).messages_clean(),
            init_applied(*old(self), *final(self)),
    {
        self.ensure_room("General");
        let ghost s1 = *self;
        self.ensure_room("Fun Links");
        let ghost s2 = *self;
        self.ensure_room("Book Club");
        let ghost s3 = *self;
        self.ensure_room("Videos");
        proof {
            assert(init_applied(*old(self), *self)) by {
                assert(room_ensured(*old(self), s1, default_room_names()[0]));
                assert(room_ensured(s1, s2, default_room_names()[1]));
                assert(room_ensured(s2, s3, default_room_names()[2]));
                assert(room_ensured(s3, *self, default_room_names()[3]));
            }
        }
    }
}

} // verus!
