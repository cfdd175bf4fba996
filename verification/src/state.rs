//! The state snapshot: the bot's identity and the users and rooms known at
//! session start, captured once and read-only afterwards.

use vstd::prelude::*;

use crate::messages::Room;
use crate::messages::RoomV;
use crate::messages::User;
use crate::messages::UserV;
use crate::messages::rooms_view;
use crate::messages::users_view;

verus! {

/// The view of an optional user.
pub open spec fn opt_user_view(o: Option<User>) -> Option<UserV> {
    match o {
        Some(u) => Some(u@),
        None => None,
    }
}

/// Read-only access to a startup snapshot.
pub trait State {
    /// The snapshot's view of the bot's own identity.
    spec fn spec_me(&self) -> Option<UserV>;

    /// The snapshot's view of the known users.
    spec fn spec_users(&self) -> Seq<UserV>;

    /// The snapshot's view of the known rooms.
    spec fn spec_rooms(&self) -> Seq<RoomV>;

    /// The bot's own identity, when the handshake supplied one.
    fn me(&self) -> (r: Option<User>)
        ensures
            opt_user_view(r) == self.spec_me(),
    ;

    /// The users known at session start.
    fn users(&self) -> (r: Vec<User>)
        ensures
            users_view(r@) == self.spec_users(),
    ;

    /// The rooms known at session start.
    fn rooms(&self) -> (r: Vec<Room>)
        ensures
            rooms_view(r@) == self.spec_rooms(),
    ;
}

/// Ghost view of a snapshot.
pub ghost struct SlackStateV {
    pub me: Option<UserV>,
    pub users: Seq<UserV>,
    pub rooms: Seq<RoomV>,
}

/// A snapshot populated from the gateway's session-start handshake.
pub struct SlackState {
    pub me: Option<User>,
    pub users: Vec<User>,
    pub rooms: Vec<Room>,
}

impl View for SlackState {
    type V = SlackStateV;

    open spec fn view(&self) -> SlackStateV {
        SlackStateV {
            me: opt_user_view(self.me),
            users: users_view(self.users@),
            rooms: rooms_view(self.rooms@),
        }
    }
}

impl SlackState {
    /// An empty snapshot, ready to be populated during the handshake.
    pub fn new() -> (s: Self)
        ensures
            s@.me is None,
            s@.users == Seq::<UserV>::empty(),
            s@.rooms == Seq::<RoomV>::empty(),
    {
        let s = SlackState { me: None, users: Vec::new(), rooms: Vec::new() };
        proof {
            assert(s@.users =~= Seq::<UserV>::empty());
            assert(s@.rooms =~= Seq::<RoomV>::empty());
        }
        s
    }

    /// Records the bot's own identity.
    pub fn set_me(&mut self, me: User)
        ensures
            final(self)@.me == Some(me@),
            final(self)@.users == old(self)@.users,
            final(self)@.rooms == old(self)@.rooms,
    {
        self.me = Some(me);
    }

    /// Appends a discovered user.
    pub fn add_user(&mut self, u: User)
        ensures
            final(self)@.me == old(self)@.me,
            final(self)@.users == old(self)@.users.push(u@),
            final(self)@.rooms == old(self)@.rooms,
    {
        let ghost uv = u@;
        self.users.push(u);
        proof {
            assert(self@.users =~= old(self)@.users.push(uv));
        }
    }

    /// Appends a discovered room.
    pub fn add_room(&mut self, r: Room)
        ensures
            final(self)@.me == old(self)@.me,
            final(self)@.users == old(self)@.users,
            final(self)@.rooms == old(self)@.rooms.push(r@),
    {
        let ghost rv = r@;
        self.rooms.push(r);
        proof {
            assert(self@.rooms =~= old(self)@.rooms.push(rv));
        }
    }
}

/// Clones a list of users element by element.
fn clone_users(a: &Vec<User>) -> (r: Vec<User>)
    ensures
        users_view(r@) == users_view(a@),
{
    let mut r: Vec<User> = Vec::new();
    let mut i: usize = 0;
    while i < a.len()
        invariant
            i <= a.len(),
            r@.len() == i,
            forall|j: int| 0 <= j < i ==> r@[j]@ == a@[j]@,
        decreases a.len() - i,
    {
        r.push(a[i].clone());
        i = i + 1;
    }
    assert(users_view(r@) =~= users_view(a@));
    r
}

/// Clones a list of rooms element by element.
fn clone_rooms(a: &Vec<Room>) -> (r: Vec<Room>)
    ensures
        rooms_view(r@) == rooms_view(a@),
{
    let mut r: Vec<Room> = Vec::new();
    let mut i: usize = 0;
    while i < a.len()
        invariant
            i <= a.len(),
            r@.len() == i,
            forall|j: int| 0 <= j < i ==> r@[j]@ == a@[j]@,
        decreases a.len() - i,
    {
        r.push(a[i].clone());
        i = i + 1;
    }
    assert(rooms_view(r@) =~= rooms_view(a@));
    r
}

impl State for SlackState {
    open spec fn spec_me(&self) -> Option<UserV> {
        self@.me
    }

    open spec fn spec_users(&self) -> Seq<UserV> {
        self@.users
    }

    open spec fn spec_rooms(&self) -> Seq<RoomV> {
        self@.rooms
    }

    fn me(&self) -> (r: Option<User>)
        ensures
            opt_user_view(r) == self.spec_me(),
    {
        match &self.me {
            Some(u) => Some(u.clone()),
            None => None,
        }
    }

    fn users(&self) -> (r: Vec<User>)
        ensures
            users_view(r@) == self.spec_users(),
    {
        clone_users(&self.users)
    }

    fn rooms(&self) -> (r: Vec<Room>)
        ensures
            rooms_view(r@) == self.spec_rooms(),
    {
        clone_rooms(&self.rooms)
    }
}

} // verus!
