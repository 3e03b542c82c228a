use crate::ops::{
    connect_applied, default_room_names, init_applied, message_sent, pointer_set_applied,
    room_ensured,
};
use crate::state::{
    has_pointer, has_room_named, has_user, pointer_owners_unique, user_ids_unique, ChatState,
    Identity, Pointer,
};
use vstd::prelude::*;

verus! {

/// A name of one of the rooms that initialization guarantees.
pub open spec fn is_default_room_name(n: Seq<char>) -> bool {
    n == "General"@ || n == "Fun Links"@ || n == "Book Club"@ || n == "Videos"@
}

/// The four default room names are pairwise distinct texts.
proof fn lemma_default_names_distinct()
    ensures
        "General"@ != "Fun Links"@,
        "General"@ != "Book Club"@,
        "General"@ != "Videos"@,
        "Fun Links"@ != "Book Club"@,
        "Fun Links"@ != "Videos"@,
        "Book Club"@ != "Videos"@,
{
    reveal_strlit("General");
    reveal_strlit("Fun Links");
    reveal_strlit("Book Club");
    reveal_strlit("Videos");
    assert("General"@.len() == 7);
    assert("Fun Links"@.len() == 9);
    assert("Book Club"@.len() == 9);
    assert("Videos"@.len() == 6);
    assert("Fun Links"@[0] == 'F');
    assert("Book Club"@[0] == 'B');
}

/// One initialization step never removes a room: any name present before
/// the step is still present after it.
proof fn lemma_room_ensured_keeps_named(a: ChatState, b: ChatState, m: Seq<char>, n: Seq<char>)
    requires
        room_ensured(a, b, m),
        has_room_named(a.rooms@, n),
    ensures
        has_room_named(b.rooms@, n),
{
    let i = choose|i: int| 0 <= i < a.rooms@.len() && (#[trigger] a.rooms@[i]).name@ == n;
    assert(b.rooms@[i].name@ == n);
}

/// After one initialization step for `m`, a room named `m` exists.
proof fn lemma_room_ensured_named(a: ChatState, b: ChatState, m: Seq<char>)
    requires
        room_ensured(a, b, m),
    ensures
        has_room_named(b.rooms@, m),
{
    if has_room_named(a.rooms@, m) {
        lemma_room_ensured_keeps_named(a, b, m, m);
    } else {
        assert(b.rooms@[b.rooms@.len() - 1].name@ == m);
    }
}

/// Initialization guarantees the default rooms: after a run, a room exists
/// for each of the four default names.
pub proof fn lemma_init_creates_defaults(s0: ChatState, s1: ChatState)
    requires
        init_applied(s0, s1),
    ensures
        forall|n: Seq<char>| is_default_room_name(n) ==> #[trigger] has_room_named(s1.rooms@, n),
{
    let (a, b, c) = choose|a: ChatState, b: ChatState, c: ChatState|
        {
            &&& #[trigger] room_ensured(s0, a, default_room_names()[0])
            &&& #[trigger] room_ensured(a, b, default_room_names()[1])
            &&& #[trigger] room_ensured(b, c, default_room_names()[2])
            &&& room_ensured(c, s1, default_room_names()[3])
        };
    lemma_room_ensured_named(s0, a, default_room_names()[0]);
    lemma_room_ensured_keeps_named(a, b, default_room_names()[1], default_room_names()[0]);
    lemma_room_ensured_named(a, b, default_room_names()[1]);
    lemma_room_ensured_keeps_named(b, c, default_room_names()[2], default_room_names()[0]);
    lemma_room_ensured_keeps_named(b, c, default_room_names()[2], default_room_names()[1]);
    lemma_room_ensured_named(b, c, default_room_names()[2]);
    lemma_room_ensured_keeps_named(c, s1, default_room_names()[3], default_room_names()[0]);
    lemma_room_ensured_keeps_named(c, s1, default_room_names()[3], default_room_names()[1]);
    lemma_room_ensured_keeps_named(c, s1, default_room_names()[3], default_room_names()[2]);
    lemma_room_ensured_named(c, s1, default_room_names()[3]);
}

/// Initialization is idempotent: once a run has guaranteed the default
/// rooms, a second run changes nothing at all — no table moves and no id is
/// consumed.
pub proof fn lemma_init_idempotent(s0: ChatState, s1: ChatState, s2: ChatState)
    requires
        init_applied(s0, s1),
        init_applied(s1, s2),
    ensures
        s2.rooms@ == s1.rooms@,
        s2.next_room_id == s1.next_room_id,
        s2.users@ == s1.users@,
        s2.pointers@ == s1.pointers@,
        s2.messages@ == s1.messages@,
        s2.next_message_id == s1.next_message_id,
{
    lemma_init_creates_defaults(s0, s1);
    assert(has_room_named(s1.rooms@, default_room_names()[0]));
    assert(has_room_named(s1.rooms@, default_room_names()[1]));
    assert(has_room_named(s1.rooms@, default_room_names()[2]));
    assert(has_room_named(s1.rooms@, default_room_names()[3]));
    // so every step of the second run finds its room and leaves the state be
    let (t1, t2, t3) = choose|t1: ChatState, t2: ChatState, t3: ChatState|
        {
            &&& #[trigger] room_ensured(s1, t1, default_room_names()[0])
            &&& #[trigger] room_ensured(t1, t2, default_room_names()[1])
            &&& #[trigger] room_ensured(t2, t3, default_room_names()[2])
            &&& room_ensured(t3, s2, default_room_names()[3])
        };
    assert(t1.rooms@ == s1.rooms@);
    assert(t2.rooms@ == s1.rooms@);
    assert(t3.rooms@ == s1.rooms@);
}

/// A first initialization of a store that holds no default-named room yet
/// never creates two rooms sharing a default name.
pub proof fn lemma_init_no_duplicate_defaults(s0: ChatState, s1: ChatState)
    requires
        init_applied(s0, s1),
        forall|i: int|
            0 <= i < s0.rooms@.len() ==> !is_default_room_name(
                (#[trigger] s0.rooms@[i]).name@,
            ),
    ensures
        forall|i: int, j: int|
            0 <= i < j < s1.rooms@.len() ==> !((#[trigger] s1.rooms@[i]).name@
                == (#[trigger] s1.rooms@[j]).name@ && is_default_room_name(s1.rooms@[i].name@)),
{
    lemma_default_names_distinct();
    let (a, b, c) = choose|a: ChatState, b: ChatState, c: ChatState|
        {
            &&& #[trigger] room_ensured(s0, a, default_room_names()[0])
            &&& #[trigger] room_ensured(a, b, default_room_names()[1])
            &&& #[trigger] room_ensured(b, c, default_room_names()[2])
            &&& room_ensured(c, s1, default_room_names()[3])
        };
    let n0 = s0.rooms@.len() as int;
    assert(!has_room_named(s0.rooms@, "General"@)) by {
        if has_room_named(s0.rooms@, "General"@) {
            let w = choose|w: int|
                0 <= w < s0.rooms@.len() && (#[trigger] s0.rooms@[w]).name@ == "General"@;
            assert(!is_default_room_name(s0.rooms@[w].name@));
        }
    }
    assert(a.rooms@.len() == n0 + 1 && a.rooms@[n0].name@ == "General"@);
    assert(!has_room_named(a.rooms@, "Fun Links"@)) by {
        if has_room_named(a.rooms@, "Fun Links"@) {
            let w = choose|w: int|
                0 <= w < a.rooms@.len() && (#[trigger] a.rooms@[w]).name@ == "Fun Links"@;
            if w < n0 {
                assert(a.rooms@[w] == s0.rooms@[w]);
                assert(!is_default_room_name(s0.rooms@[w].name@));
            }
        }
    }
    assert(b.rooms@.len() == n0 + 2 && b.rooms@[n0 + 1].name@ == "Fun Links"@);
    assert(!has_room_named(b.rooms@, "Book Club"@)) by {
        if has_room_named(b.rooms@, "Book Club"@) {
            let w = choose|w: int|
                0 <= w < b.rooms@.len() && (#[trigger] b.rooms@[w]).name@ == "Book Club"@;
            if w < n0 {
                assert(b.rooms@[w] == s0.rooms@[w]);
                assert(!is_default_room_name(s0.rooms@[w].name@));
            }
        }
    }
    assert(c.rooms@.len() == n0 + 3 && c.rooms@[n0 + 2].name@ == "Book Club"@);
    assert(!has_room_named(c.rooms@, "Videos"@)) by {
        if has_room_named(c.rooms@, "Videos"@) {
            let w = choose|w: int|
                0 <= w < c.rooms@.len() && (#[trigger] c.rooms@[w]).name@ == "Videos"@;
            if w < n0 {
                assert(c.rooms@[w] == s0.rooms@[w]);
                assert(!is_default_room_name(s0.rooms@[w].name@));
            }
        }
    }
    assert(s1.rooms@.len() == n0 + 4 && s1.rooms@[n0 + 3].name@ == "Videos"@);
    assert forall|i: int, j: int| 0 <= i < j < s1.rooms@.len() implies !((
    #[trigger] s1.rooms@[i]).name@ == (#[trigger] s1.rooms@[j]).name@ && is_default_room_name(
        s1.rooms@[i].name@,
    )) by {
        if i < n0 {
            assert(s1.rooms@[i] == s0.rooms@[i]);
            assert(!is_default_room_name(s0.rooms@[i].name@));
        } else {
            assert(s1.rooms@[i].name@ != s1.rooms@[j].name@);
        }
    }
}

/// Connecting is idempotent: a second connect for the same caller leaves
/// every user row exactly as the first connect left it — the name is
/// untouched and the caller stays online.
pub proof fn lemma_connect_idempotent(s0: ChatState, s1: ChatState, s2: ChatState, c: Identity)
    requires
        user_ids_unique(s0.users@),
        connect_applied(s0, s1, c),
        connect_applied(s1, s2, c),
    ensures
        s2.users@ == s1.users@,
        s2.pointers@ == s1.pointers@,
        s2.rooms@ == s1.rooms@,
        s2.messages@ == s1.messages@,
        has_user(s1.users@, c),
{
    if has_user(s0.users@, c) {
        let i = choose|i: int|
            0 <= i < s0.users@.len() && (#[trigger] s0.users@[i]).identity == c && s1.users@
                =~= s0.users@.update(
                i,
                crate::state::User { identity: c, name: s0.users@[i].name, online: true },
            );
        assert(s1.users@[i].identity == c);
        assert(user_ids_unique(s1.users@));
        let j = choose|j: int|
            0 <= j < s1.users@.len() && (#[trigger] s1.users@[j]).identity == c && s2.users@
                =~= s1.users@.update(
                j,
                crate::state::User { identity: c, name: s1.users@[j].name, online: true },
            );
        assert(j == i);
        assert(s1.users@[j] == (crate::state::User {
            identity: c,
            name: s1.users@[j].name,
            online: true,
        }));
        assert(s2.users@ =~= s1.users@);
    } else {
        let n = s0.users@.len() as int;
        assert(s1.users@[n].identity == c);
        assert(user_ids_unique(s1.users@)) by {
            assert(forall|k: int| 0 <= k < n ==> (#[trigger] s1.users@[k]) == s0.users@[k]);
        }
        let j = choose|j: int|
            0 <= j < s1.users@.len() && (#[trigger] s1.users@[j]).identity == c && s2.users@
                =~= s1.users@.update(
                j,
                crate::state::User { identity: c, name: s1.users@[j].name, online: true },
            );
        assert(j == n);
        assert(s1.users@[j] == (crate::state::User {
            identity: c,
            name: s1.users@[j].name,
            online: true,
        }));
        assert(s2.users@ =~= s1.users@);
    }
}

/// The latest pointer move wins: two moves by the same caller leave exactly
/// one pointer row for that caller, carrying the second position — the
/// second move updates in place instead of inserting a duplicate.
pub proof fn lemma_pointer_latest_wins(
    s0: ChatState,
    s1: ChatState,
    s2: ChatState,
    c: Identity,
    x1: i64,
    y1: i64,
    x2: i64,
    y2: i64,
)
    requires
        pointer_owners_unique(s0.pointers@),
        pointer_set_applied(s0, s1, c, x1, y1),
        pointer_set_applied(s1, s2, c, x2, y2),
    ensures
        s2.pointers@.len() == s1.pointers@.len(),
        has_pointer(s2.pointers@, c),
        pointer_owners_unique(s2.pointers@),
        forall|k: int|
            0 <= k < s2.pointers@.len() && (#[trigger] s2.pointers@[k]).owner == c
                ==> s2.pointers@[k] == (Pointer { owner: c, position_x: x2, position_y: y2 }),
{
    let target = Pointer { owner: c, position_x: x2, position_y: y2 };
    if has_pointer(s0.pointers@, c) {
        let i = choose|i: int|
            0 <= i < s0.pointers@.len() && (#[trigger] s0.pointers@[i]).owner == c && s1.pointers@
                =~= s0.pointers@.update(i, Pointer { owner: c, position_x: x1, position_y: y1 });
        assert(s1.pointers@[i].owner == c);
        assert(pointer_owners_unique(s1.pointers@));
    } else {
        let n = s0.pointers@.len() as int;
        assert(s1.pointers@[n].owner == c);
        assert(pointer_owners_unique(s1.pointers@)) by {
            assert(forall|k: int|
                0 <= k < n ==> (#[trigger] s1.pointers@[k]) == s0.pointers@[k]);
        }
    }
    assert(has_pointer(s1.pointers@, c));
    let j = choose|j: int|
        0 <= j < s1.pointers@.len() && (#[trigger] s1.pointers@[j]).owner == c && s2.pointers@
            =~= s1.pointers@.update(j, target);
    assert(s2.pointers@[j] == target);
    assert(s2.pointers@[j].owner == c);
    assert forall|k: int|
        0 <= k < s2.pointers@.len() && (#[trigger] s2.pointers@[k]).owner == c implies s2.pointers@[k]
        == target by {
        if k != j {
            assert(s2.pointers@[k] == s1.pointers@[k]);
            assert(s1.pointers@[j].owner == c);
        }
    }
}

/// Sends are not deduplicated: the same caller sending the same text to the
/// same room twice commits two message rows with distinct ids.
pub proof fn lemma_repeated_send_not_deduplicated(
    s0: ChatState,
    s1: ChatState,
    s2: ChatState,
    c: Identity,
    text: String,
    room_id: u128,
    t1: u64,
    t2: u64,
)
    requires
        message_sent(s0, s1, c, text, room_id, t1),
        message_sent(s1, s2, c, text, room_id, t2),
    ensures
        s2.messages@.len() == s0.messages@.len() + 2,
        ({
            let m1 = s2.messages@[s2.messages@.len() - 2];
            let m2 = s2.messages@[s2.messages@.len() - 1];
            &&& m1.id != m2.id
            &&& m1.sender == c && m2.sender == c
            &&& m1.text == text && m2.text == text
            &&& m1.room == room_id && m2.room == room_id
            &&& m1.sent == t1 && m2.sent == t2
        }),
{
}

} // verus!
