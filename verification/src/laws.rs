use crate::message::Message;
use crate::server::{member_added, message_posted, user_registered, Server};
use vstd::prelude::*;

verus! {

/// In a well-formed store at most one user record carries any given
/// username: two indices with the same name coincide. Together with the
/// registration contract (a taken name always fails, a fresh name appends
/// exactly one record) this means that of any number of serialized
/// attempts to register one name, exactly the first succeeds, and exactly
/// one user with that name exists afterwards.
pub proof fn lemma_username_unique(s: Server, i: int, j: int)
    requires
        s.wf(),
        0 <= i < s.users@.len(),
        0 <= j < s.users@.len(),
        s.users@[i].username@ == s.users@[j].username@,
    ensures
        i == j,
{
    if i < j {
        assert(s.users@[i].username@ != s.users@[j].username@);
    }
    if j < i {
        assert(s.users@[j].username@ != s.users@[i].username@);
    }
}

/// A name once registered stays registered across every store operation:
/// each operation either leaves the user records alone or appends to them.
pub proof fn lemma_registered_names_persist(pre: Server, post: Server, name: Seq<char>)
    requires
        pre.spec_has_username(name),
        post.users@.len() >= pre.users@.len(),
        forall|i: int| 0 <= i < pre.users@.len() ==> post.users@[i] == #[trigger] pre.users@[i],
    ensures
        post.spec_has_username(name),
{
    let i = choose|i: int| 0 <= i < pre.users@.len() && pre.users@[i].username@ == name;
    assert(post.users@[i].username@ == name);
}

/// Registering a fresh name disturbs no existing registration: every name
/// already present afterwards resolves to exactly the record it had
/// before, and the fresh name resolves to the appended record.
pub proof fn lemma_register_preserves_lookup(
    pre: Server,
    post: Server,
    fresh_name: Seq<char>,
    other: Seq<char>,
)
    requires
        pre.usernames_distinct(),
        !pre.spec_has_username(fresh_name),
        user_registered(pre, post, fresh_name),
    ensures
        post.usernames_distinct(),
        post.spec_has_username(fresh_name),
        post.spec_user_named(fresh_name) == post.users@.last(),
        pre.spec_has_username(other) ==> {
            &&& post.spec_has_username(other)
            &&& post.spec_user_named(other) == pre.spec_user_named(other)
        },
{
    let n = pre.users@.len() as int;
    assert forall|i: int, j: int|
        0 <= i < j < post.users@.len() implies post.users@[i].username@
        != post.users@[j].username@ by {
        if j < n {
            assert(pre.users@[i].username@ != pre.users@[j].username@);
        } else {
            assert(post.users@[i] == pre.users@[i]);
            if post.users@[i].username@ == fresh_name {
                assert(pre.spec_has_username(fresh_name));
            }
        }
    }
    assert(post.users@[n].username@ == fresh_name);
    post.lemma_user_index_unique(n, fresh_name);
    if pre.spec_has_username(other) {
        let k = pre.spec_user_index(other);
        assert(0 <= k < n && pre.users@[k].username@ == other) by {
            let w = choose|w: int| 0 <= w < pre.users@.len() && pre.users@[w].username@ == other;
            pre.lemma_user_index_unique(w, other);
        }
        assert(post.users@[k] == pre.users@[k]);
        post.lemma_user_index_unique(k, other);
    }
}

/// Any number of serialized registrations under distinct, fresh names all
/// take effect: afterwards every one of the names is registered, each
/// resolving to exactly the record its own registration appended, and a
/// name is registered at the end exactly when it was registered at the
/// start or is one of the fresh names.
pub proof fn lemma_distinct_registrations_all_found(states: Seq<Server>, names: Seq<Seq<char>>)
    requires
        states.len() == names.len() + 1,
        states[0].usernames_distinct(),
        forall|a: int, b: int| 0 <= a < b < names.len() ==> names[a] != names[b],
        forall|a: int| 0 <= a < names.len() ==> !states[0].spec_has_username(#[trigger] names[a]),
        forall|a: int|
            0 <= a < names.len() ==> user_registered(states[a], states[a + 1], #[trigger] names[a]),
    ensures
        states.last().usernames_distinct(),
        forall|x: Seq<char>|
            #[trigger] states.last().spec_has_username(x) <==> (states[0].spec_has_username(x)
                || exists|a: int| 0 <= a < names.len() && names[a] == x),
        forall|a: int|
            0 <= a < names.len() ==> states.last().spec_has_username(#[trigger] names[a])
                && states.last().spec_user_named(names[a]) == states[a + 1].users@.last(),
    decreases names.len(),
{
    if names.len() == 0 {
        assert(states.last() == states[0]);
        assert forall|x: Seq<char>| #[trigger]
            states.last().spec_has_username(x) implies (states[0].spec_has_username(x) || exists|
            a: int,
        | 0 <= a < names.len() && names[a] == x) by {}
    } else {
        let n = names.len() as int;
        let prefix_states = states.drop_last();
        let prefix_names = names.drop_last();
        lemma_distinct_registrations_all_found(prefix_states, prefix_names);
        let before = states[n - 1];
        let after = states[n];
        let last_name = names[n - 1];
        assert(prefix_states.last() == before);
        assert(!before.spec_has_username(last_name)) by {
            if before.spec_has_username(last_name) {
                assert(exists|a: int| 0 <= a < prefix_names.len() && prefix_names[a] == last_name
                    || states[0].spec_has_username(last_name));
            }
        }
        lemma_register_preserves_lookup(before, after, last_name, last_name);
        assert(states.last() == after);
        assert forall|x: Seq<char>| #[trigger]
            states.last().spec_has_username(x) implies (states[0].spec_has_username(x) || exists|
            a: int,
        | 0 <= a < names.len() && names[a] == x) by {
            let w = choose|w: int|
                0 <= w < after.users@.len() && after.users@[w].username@ == x;
            if w < before.users@.len() {
                assert(before.users@[w] == after.users@[w]);
                assert(before.spec_has_username(x));
            } else {
                assert(names[n - 1] == x);
            }
        }
        assert forall|x: Seq<char>|
            states[0].spec_has_username(x) || exists|a: int|
                0 <= a < names.len() && names[a] == x implies #[trigger] states.last()
            .spec_has_username(x) by {
            if states[0].spec_has_username(x) || exists|a: int|
                0 <= a < prefix_names.len() && prefix_names[a] == x {
                assert(before.spec_has_username(x));
                lemma_register_preserves_lookup(before, after, last_name, x);
            } else {
                let a = choose|a: int| 0 <= a < names.len() && names[a] == x;
                if a < n - 1 {
                    assert(prefix_names[a] == x);
                    assert(false);
                }
            }
        }
        assert forall|a: int|
            0 <= a < names.len() implies states.last().spec_has_username(#[trigger] names[a])
            && states.last().spec_user_named(names[a]) == states[a + 1].users@.last() by {
            if a < n - 1 {
                assert(prefix_names[a] == names[a]);
                assert(before.spec_has_username(names[a]));
                assert(before.spec_user_named(names[a]) == prefix_states[a + 1].users@.last());
                assert(prefix_states[a + 1] == states[a + 1]);
                lemma_register_preserves_lookup(before, after, last_name, names[a]);
            } else {
                assert(after.spec_user_named(last_name) == after.users@.last());
            }
        }
    }
}

/// Room names and their positions are stable under any operation that
/// rewrites room contents without renaming, reordering, adding or removing
/// rooms.
pub proof fn lemma_room_lookup_stable(pre: Server, post: Server, name: Seq<char>)
    requires
        pre.room_names_distinct(),
        post.rooms@.len() == pre.rooms@.len(),
        forall|i: int| 0 <= i < pre.rooms@.len() ==> post.rooms@[i].name == #[trigger] pre.rooms@[i].name,
    ensures
        post.room_names_distinct(),
        pre.spec_has_room(name) <==> post.spec_has_room(name),
        pre.spec_has_room(name) ==> post.spec_room_index(name) == pre.spec_room_index(name),
{
    assert forall|i: int, j: int|
        0 <= i < j < post.rooms@.len() implies post.rooms@[i].name@ != post.rooms@[j].name@ by {
        assert(pre.rooms@[i].name@ != pre.rooms@[j].name@);
    }
    if pre.spec_has_room(name) {
        let w = choose|w: int| 0 <= w < pre.rooms@.len() && pre.rooms@[w].name@ == name;
        pre.lemma_room_index_unique(w, name);
        assert(post.rooms@[w].name@ == name);
        post.lemma_room_index_unique(w, name);
    }
    if post.spec_has_room(name) {
        let w = choose|w: int| 0 <= w < post.rooms@.len() && post.rooms@[w].name@ == name;
        assert(pre.rooms@[w].name@ == name);
    }
}

/// The order of a room's messages is the order they were accepted in: two
/// successive posts to one room leave its list extended by exactly those
/// two messages, in that order, which is what a later read returns.
pub proof fn lemma_posts_keep_order(
    s0: Server,
    s1: Server,
    s2: Server,
    room_name: Seq<char>,
    m1: Message,
    m2: Message,
)
    requires
        s0.wf(),
        message_posted(s0, s1, room_name, m1),
        message_posted(s1, s2, room_name, m2),
    ensures
        s2.spec_has_room(room_name),
        s2.spec_room_named(room_name).messages@ == s0.spec_room_named(room_name).messages@
            + seq![m1, m2],
{
    let idx = s0.spec_room_index(room_name);
    lemma_room_lookup_stable(s0, s1, room_name);
    lemma_room_lookup_stable(s1, s2, room_name);
    assert(s1.spec_room_index(room_name) == idx);
    assert(s2.rooms@[idx].messages@ == s0.rooms@[idx].messages@.push(m1).push(m2));
    assert(s0.rooms@[idx].messages@.push(m1).push(m2) =~= s0.rooms@[idx].messages@ + seq![
        m1,
        m2,
    ]);
}

/// Two stores that agree on every observable part: same users, same
/// identity, and rooms that pairwise hold the same contents.
pub open spec fn same_stores(a: Server, b: Server) -> bool {
    &&& a.users == b.users
    &&& a.name == b.name
    &&& a.id == b.id
    &&& a.rooms@.len() == b.rooms@.len()
    &&& forall|i: int|
        0 <= i < a.rooms@.len() ==> {
            let x = #[trigger] a.rooms@[i];
            let y = #[trigger] b.rooms@[i];
            &&& x.id == y.id
            &&& x.name == y.name
            &&& x.users@ == y.users@
            &&& x.messages@ == y.messages@
        }
}

/// Operations on different rooms commute: adding a member to one room and
/// posting a message to another reach the same store in either order, so
/// a serialization may run them in any order — neither has to wait for
/// the other's effect.
pub proof fn lemma_distinct_room_ops_commute(
    s0: Server,
    s1: Server,
    s2: Server,
    t1: Server,
    t2: Server,
    add_room: Seq<char>,
    added_name: Seq<char>,
    post_room: Seq<char>,
    m: Message,
)
    requires
        s0.wf(),
        add_room != post_room,
        member_added(s0, s1, add_room, added_name),
        message_posted(s1, s2, post_room, m),
        message_posted(s0, t1, post_room, m),
        member_added(t1, t2, add_room, added_name),
    ensures
        same_stores(s2, t2),
{
    let a = s0.spec_room_index(add_room);
    let p = s0.spec_room_index(post_room);
    lemma_room_lookup_stable(s0, s1, post_room);
    lemma_room_lookup_stable(s0, t1, add_room);
    assert(s1.spec_room_index(post_room) == p);
    assert(t1.spec_room_index(add_room) == a);
    assert(a != p) by {
        let wa = choose|w: int| 0 <= w < s0.rooms@.len() && s0.rooms@[w].name@ == add_room;
        let wp = choose|w: int| 0 <= w < s0.rooms@.len() && s0.rooms@[w].name@ == post_room;
        s0.lemma_room_index_unique(wa, add_room);
        s0.lemma_room_index_unique(wp, post_room);
    }

    // The same user is added on both paths: the user records are untouched
    // by posting, and usernames are unique.
    let u = s0.spec_user_named(added_name);
    assert(t1.spec_user_named(added_name) == u) by {
        let w = choose|w: int| 0 <= w < s0.users@.len() && s0.users@[w].username@ == added_name;
        s0.lemma_user_index_unique(w, added_name);
        assert(t1.users@ == s0.users@);
        t1.lemma_user_index_unique(s0.spec_user_index(added_name), added_name);
    }

    assert(s2.users == t2.users);
    assert forall|i: int| 0 <= i < s2.rooms@.len() implies {
        let x = #[trigger] s2.rooms@[i];
        let y = #[trigger] t2.rooms@[i];
        &&& x.id == y.id
        &&& x.name == y.name
        &&& x.users@ == y.users@
        &&& x.messages@ == y.messages@
    } by {
        if i == a {
            assert(s2.rooms@[a] == s1.rooms@[a]);
            assert(t1.rooms@[a] == s0.rooms@[a]);
        } else if i == p {
            assert(s1.rooms@[p] == s0.rooms@[p]);
            assert(t2.rooms@[p] == t1.rooms@[p]);
        } else {
            assert(s1.rooms@[i] == s0.rooms@[i]);
            assert(s2.rooms@[i] == s1.rooms@[i]);
            assert(t1.rooms@[i] == s0.rooms@[i]);
            assert(t2.rooms@[i] == t1.rooms@[i]);
        }
    }
}

} // verus!
