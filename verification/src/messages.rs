//! The message model: addressable sources, inbound and outbound messages, and
//! the error taxonomy shared by handlers and the plugin loader.

use vstd::prelude::*;
use vstd::string::StringExecFns;

verus! {

// ------------------------------------------------------------------
// Ghost views
// ------------------------------------------------------------------

/// Ghost view of a `User`: every text field as a sequence of characters.
pub ghost struct UserV {
    pub id: Seq<char>,
    pub username: Seq<char>,
    pub name: Seq<char>,
    pub attributes: Seq<(Seq<char>, Seq<char>)>,
}

/// Ghost view of a `Room`.
pub ghost struct RoomV {
    pub id: Seq<char>,
    pub name: Seq<char>,
    pub attributes: Seq<(Seq<char>, Seq<char>)>,
}

/// Ghost view of a `Source`.
pub ghost enum SourceV {
    User(UserV),
    Room(RoomV),
}

/// Ghost view of an `InboundMessage`.
pub ghost struct InboundMessageV {
    pub source: SourceV,
    pub command: Seq<char>,
    pub arguments: Seq<Seq<char>>,
}

/// Ghost view of an `OutboundMessage`.
pub ghost struct OutboundMessageV {
    pub destination: SourceV,
    pub content: Seq<char>,
}

/// Ghost view of a `HandleError`.
pub ghost enum HandleErrorV {
    Unhandled,
    Unexpected(Seq<char>),
}

/// Ghost view of a `Message`.
pub ghost struct MessageV {
    pub channel_id: Seq<char>,
    pub arguments: Seq<Seq<char>>,
}

/// View of an attribute list: each key/value pair as character sequences.
pub open spec fn attrs_view(a: Seq<(String, String)>) -> Seq<(Seq<char>, Seq<char>)> {
    Seq::new(a.len(), |i: int| (a[i].0@, a[i].1@))
}

/// View of a list of strings.
pub open spec fn strs_view(a: Seq<String>) -> Seq<Seq<char>> {
    Seq::new(a.len(), |i: int| a[i]@)
}

/// View of a list of outbound messages.
pub open spec fn msgs_view(a: Seq<OutboundMessage>) -> Seq<OutboundMessageV> {
    Seq::new(a.len(), |i: int| a[i]@)
}

/// View of a list of users.
pub open spec fn users_view(a: Seq<User>) -> Seq<UserV> {
    Seq::new(a.len(), |i: int| a[i]@)
}

/// View of a list of rooms.
pub open spec fn rooms_view(a: Seq<Room>) -> Seq<RoomV> {
    Seq::new(a.len(), |i: int| a[i]@)
}

/// View of a handler result: either the produced messages or the error.
pub open spec fn result_view(r: HandleResult) -> Result<Seq<OutboundMessageV>, HandleErrorV> {
    match r {
        Ok(msgs) => Ok(msgs_view(msgs@)),
        Err(e) => Err(e@),
    }
}

// ------------------------------------------------------------------
// Data types
// ------------------------------------------------------------------

/// A person known to the gateway.
pub struct User {
    pub id: String,
    pub username: String,
    pub name: String,
    /// Open-ended metadata, kept as an association list in insertion order.
    pub attributes: Vec<(String, String)>,
}

impl View for User {
    type V = UserV;

    open spec fn view(&self) -> UserV {
        UserV {
            id: self.id@,
            username: self.username@,
            name: self.name@,
            attributes: attrs_view(self.attributes@),
        }
    }
}

/// A room (channel, group, or multi-party conversation) known to the gateway.
pub struct Room {
    pub id: String,
    pub name: String,
    /// Open-ended metadata, kept as an association list in insertion order.
    pub attributes: Vec<(String, String)>,
}

impl View for Room {
    type V = RoomV;

    open spec fn view(&self) -> RoomV {
        RoomV { id: self.id@, name: self.name@, attributes: attrs_view(self.attributes@) }
    }
}

/// The addressable origin or destination of a message.
pub enum Source {
    User(User),
    Room(Room),
}

impl View for Source {
    type V = SourceV;

    open spec fn view(&self) -> SourceV {
        match self {
            Source::User(u) => SourceV::User(u@),
            Source::Room(r) => SourceV::Room(r@),
        }
    }
}

/// A parsed command event: where it came from, the command token, and its
/// whitespace-separated arguments.
pub struct InboundMessage {
    pub source: Source,
    pub command: String,
    pub arguments: Vec<String>,
}

impl View for InboundMessage {
    type V = InboundMessageV;

    open spec fn view(&self) -> InboundMessageV {
        InboundMessageV {
            source: self.source@,
            command: self.command@,
            arguments: strs_view(self.arguments@),
        }
    }
}

/// A response produced by a handler, to be delivered by the gateway adapter.
pub struct OutboundMessage {
    pub destination: Source,
    pub content: String,
}

impl View for OutboundMessage {
    type V = OutboundMessageV;

    open spec fn view(&self) -> OutboundMessageV {
        OutboundMessageV { destination: self.destination@, content: self.content@ }
    }
}

/// How a handler reports that it did not produce messages.
#[derive(Debug)]
pub enum HandleError {
    /// The handler declines the command; never surfaced to the user.
    Unhandled,
    /// The handler attempted the command and failed; surfaced to the source.
    Unexpected(String),
}

impl View for HandleError {
    type V = HandleErrorV;

    open spec fn view(&self) -> HandleErrorV {
        match self {
            HandleError::Unhandled => HandleErrorV::Unhandled,
            HandleError::Unexpected(reason) => HandleErrorV::Unexpected(reason@),
        }
    }
}

/// What a handler returns: outbound messages on success, an error otherwise.
pub type HandleResult = Result<Vec<OutboundMessage>, HandleError>;

/// Why loading a plugin module failed.
#[derive(Clone, Copy, Debug, PartialEq, Eq, Structural)]
pub enum PluginError {
    /// The module could not be opened or is not a loadable library.
    InvalidLibrary,
    /// The module lacks the well-known constructor entry point.
    InvalidPluginConstructor,
    /// The same reference was already loaded.
    AlreadyLoaded,
}

/// A compact room-addressed command event.
pub struct Message {
    pub channel_id: String,
    pub arguments: Vec<String>,
}

impl View for Message {
    type V = MessageV;

    open spec fn view(&self) -> MessageV {
        MessageV { channel_id: self.channel_id@, arguments: strs_view(self.arguments@) }
    }
}

// ------------------------------------------------------------------
// Attribute lookup
// ------------------------------------------------------------------

/// The value of the first attribute with the given key, if any.
pub open spec fn spec_attr_lookup(attrs: Seq<(Seq<char>, Seq<char>)>, key: Seq<char>) -> Option<
    Seq<char>,
>
    decreases attrs.len(),
{
    if attrs.len() == 0 {
        None
    } else if attrs[0].0 == key {
        Some(attrs[0].1)
    } else {
        spec_attr_lookup(attrs.drop_first(), key)
    }
}

/// Looks a key up in an attribute list, front to back.
#[verifier::loop_isolation(false)]
fn attr_lookup(attrs: &Vec<(String, String)>, key: &str) -> (r: Option<String>)
    ensures
        (match r {
            Some(v) => Some(v@),
            None => None,
        }) == spec_attr_lookup(attrs_view(attrs@), key@),
{
    let mut i: usize = 0;
    proof {
        assert(attrs_view(attrs@).skip(0) =~= attrs_view(attrs@));
    }
    while i < attrs.len()
        invariant
            i <= attrs@.len(),
            spec_attr_lookup(attrs_view(attrs@), key@) == spec_attr_lookup(
                attrs_view(attrs@).skip(i as int),
                key@,
            ),
        decreases attrs@.len() - i,
    {
        proof {
            assert(attrs_view(attrs@).skip(i as int)[0] == (attrs@[i as int].0@, attrs@[
                i as int
            ].1@));
            assert(attrs_view(attrs@).skip(i as int).drop_first() =~= attrs_view(attrs@).skip(
                i as int + 1,
            ));
        }
        if crate::text::str_eq(attrs[i].0.as_str(), key) {
            return Some(attrs[i].1.clone());
        }
        i = i + 1;
    }
    proof {
        assert(attrs_view(attrs@).skip(attrs@.len() as int) =~= Seq::<
            (Seq<char>, Seq<char>),
        >::empty());
    }
    None
}

impl User {
    /// The value of the first attribute with the given key, if any.
    pub fn attribute(&self, key: &str) -> (r: Option<String>)
        ensures
            (match r {
                Some(v) => Some(v@),
                None => None,
            }) == spec_attr_lookup(self@.attributes, key@),
    {
        attr_lookup(&self.attributes, key)
    }
}

impl Room {
    /// The value of the first attribute with the given key, if any.
    pub fn attribute(&self, key: &str) -> (r: Option<String>)
        ensures
            (match r {
                Some(v) => Some(v@),
                None => None,
            }) == spec_attr_lookup(self@.attributes, key@),
    {
        attr_lookup(&self.attributes, key)
    }
}

// ------------------------------------------------------------------
// Cloning
// ------------------------------------------------------------------

/// Clones an attribute list entry by entry.
fn clone_attrs(a: &Vec<(String, String)>) -> (r: Vec<(String, String)>)
    ensures
        attrs_view(r@) == attrs_view(a@),
{
    let mut r: Vec<(String, String)> = Vec::new();
    let mut i: usize = 0;
    while i < a.len()
        invariant
            i <= a.len(),
            r@.len() == i,
            forall|j: int| 0 <= j < i ==> r@[j].0@ == a@[j].0@ && r@[j].1@ == a@[j].1@,
        decreases a.len() - i,
    {
        r.push((a[i].0.clone(), a[i].1.clone()));
        i = i + 1;
    }
    assert(attrs_view(r@) =~= attrs_view(a@));
    r
}

/// Clones a list of strings element by element.
pub fn clone_strings(a: &Vec<String>) -> (r: Vec<String>)
    ensures
        strs_view(r@) == strs_view(a@),
{
    let mut r: Vec<String> = Vec::new();
    let mut i: usize = 0;
    while i < a.len()
        invariant
            i <= a.len(),
            r@.len() == i,
            forall|j: int| 0 <= j < i ==> r@[j]@ == a@[j]@,
        decreases a.len() - i,
    {
        r.push(a[i].clone());
        i = i + 1;
    }
    assert(strs_view(r@) =~= strs_view(a@));
    r
}

impl Clone for User {
    fn clone(&self) -> (r: Self)
        ensures
            r@ == self@,
    {
        User {
            id: self.id.clone(),
            username: self.username.clone(),
            name: self.name.clone(),
            attributes: clone_attrs(&self.attributes),
        }
    }
}

impl Clone for Room {
    fn clone(&self) -> (r: Self)
        ensures
            r@ == self@,
    {
        Room {
            id: self.id.clone(),
            name: self.name.clone(),
            attributes: clone_attrs(&self.attributes),
        }
    }
}

impl Clone for Source {
    fn clone(&self) -> (r: Self)
        ensures
            r@ == self@,
    {
        match self {
            Source::User(u) => Source::User(u.clone()),
            Source::Room(room) => Source::Room(room.clone()),
        }
    }
}

impl Clone for InboundMessage {
    fn clone(&self) -> (r: Self)
        ensures
            r@ == self@,
    {
        InboundMessage {
            source: self.source.clone(),
            command: self.command.clone(),
            arguments: clone_strings(&self.arguments),
        }
    }
}

impl Clone for OutboundMessage {
    fn clone(&self) -> (r: Self)
        ensures
            r@ == self@,
    {
        OutboundMessage { destination: self.destination.clone(), content: self.content.clone() }
    }
}

impl Clone for HandleError {
    fn clone(&self) -> (r: Self)
        ensures
            r@ == self@,
    {
        match self {
            HandleError::Unhandled => HandleError::Unhandled,
            HandleError::Unexpected(reason) => HandleError::Unexpected(reason.clone()),
        }
    }
}

impl Clone for Message {
    fn clone(&self) -> (r: Self)
        ensures
            r@ == self@,
    {
        Message {
            channel_id: self.channel_id.clone(),
            arguments: clone_strings(&self.arguments),
        }
    }
}

// ------------------------------------------------------------------
// Construction helpers
// ------------------------------------------------------------------

/// The text of an optional field, with the empty text standing in for `None`.
pub open spec fn opt_text(o: Option<String>) -> Seq<char> {
    match o {
        Some(s) => s@,
        None => Seq::empty(),
    }
}

/// Unwraps an optional text field to its text, or to the empty string.
pub fn text_or_empty(o: Option<String>) -> (r: String)
    ensures
        r@ == opt_text(o),
{
    match o {
        Some(s) => s,
        None => String::new(),
    }
}

/// The collection a room came from during the startup handshake.
#[derive(Clone, Copy, PartialEq, Eq, Structural)]
pub enum RoomKind {
    /// A multi-party direct-message group.
    Mpim,
    /// A public channel.
    Channel,
    /// A private group.
    Group,
}

/// The attribute value that tags a room of the given kind.
pub open spec fn spec_room_kind_text(kind: RoomKind) -> Seq<char> {
    match kind {
        RoomKind::Mpim => "mpim"@,
        RoomKind::Channel => "channel"@,
        RoomKind::Group => "group"@,
    }
}

/// The attribute value that tags a room of the given kind.
pub fn room_kind_text(kind: RoomKind) -> (r: &'static str)
    ensures
        r@ == spec_room_kind_text(kind),
{
    match kind {
        RoomKind::Mpim => "mpim",
        RoomKind::Channel => "channel",
        RoomKind::Group => "group",
    }
}

/// Builds a user record from the optional fields of a handshake payload,
/// with missing fields becoming empty text.
pub fn user_from_parts(id: Option<String>, username: Option<String>, name: Option<String>) -> (u:
    User)
    ensures
        u@.id == opt_text(id),
        u@.username == opt_text(username),
        u@.name == opt_text(name),
        u@.attributes == Seq::<(Seq<char>, Seq<char>)>::empty(),
{
    let u = User {
        id: text_or_empty(id),
        username: text_or_empty(username),
        name: text_or_empty(name),
        attributes: Vec::new(),
    };
    assert(u@.attributes =~= Seq::<(Seq<char>, Seq<char>)>::empty());
    u
}

/// Builds a room record from the optional fields of a handshake payload and
/// tags it with the collection it came from via the `type` attribute.
pub fn room_from_parts(id: Option<String>, name: Option<String>, kind: RoomKind) -> (r: Room)
    ensures
        r@.id == opt_text(id),
        r@.name == opt_text(name),
        r@.attributes == seq![("type"@, spec_room_kind_text(kind))],
{
    let mut attributes: Vec<(String, String)> = Vec::new();
    attributes.push((String::from_str("type"), String::from_str(room_kind_text(kind))));
    let r = Room { id: text_or_empty(id), name: text_or_empty(name), attributes };
    assert(r@.attributes =~= seq![("type"@, spec_room_kind_text(kind))]);
    r
}

/// The fixed text that names each loader error.
pub open spec fn spec_error_text(e: PluginError) -> Seq<char> {
    match e {
        PluginError::InvalidLibrary => "InvalidLibrary"@,
        PluginError::InvalidPluginConstructor => "InvalidPluginConstructor"@,
        PluginError::AlreadyLoaded => "AlreadyLoaded"@,
    }
}

/// Names a loader error for a user-visible report.
pub fn error_text(e: PluginError) -> (r: String)
    ensures
        r@ == spec_error_text(e),
{
    match e {
        PluginError::InvalidLibrary => String::from_str("InvalidLibrary"),
        PluginError::InvalidPluginConstructor => String::from_str("InvalidPluginConstructor"),
        PluginError::AlreadyLoaded => String::from_str("AlreadyLoaded"),
    }
}

} // verus!
