use vstd::prelude::*;
use crate::text::{push_str, string_of};

verus! {

/// A room within a place.
#[derive(Debug, Clone, PartialEq)]
pub struct Room {
    pub id: String,
    /// base64-encoded voxel chunk data
    pub data: String,
}

/// Place data stored as JSON.
#[derive(Debug, Clone, PartialEq)]
pub struct PlaceData {
    pub name: String,
    /// base64 voxel chunk data
    pub terrain: String,
    pub rooms: Vec<Room>,
    /// paths to other places
    pub connections: Vec<String>,
    pub npcs: Vec<String>,
}

/// The model of a room.
pub struct RoomView {
    pub id: Seq<char>,
    pub data: Seq<char>,
}

impl View for Room {
    type V = RoomView;

    open spec fn view(&self) -> RoomView {
        RoomView { id: self.id@, data: self.data@ }
    }
}

impl DeepView for Room {
    type V = RoomView;

    open spec fn deep_view(&self) -> RoomView {
        self@
    }
}

/// The model of a place.
pub struct PlaceView {
    pub name: Seq<char>,
    pub terrain: Seq<char>,
    pub rooms: Seq<RoomView>,
    pub connections: Seq<Seq<char>>,
    pub npcs: Seq<Seq<char>>,
}

impl View for PlaceData {
    type V = PlaceView;

    open spec fn view(&self) -> PlaceView {
        PlaceView {
            name: self.name@,
            terrain: self.terrain@,
            rooms: self.rooms.deep_view(),
            connections: self.connections.deep_view(),
            npcs: self.npcs.deep_view(),
        }
    }
}

/// A new place named `name`, with nothing in it yet.
pub open spec fn fresh_place(name: Seq<char>) -> PlaceView {
    PlaceView {
        name,
        terrain: Seq::empty(),
        rooms: Seq::empty(),
        connections: Seq::empty(),
        npcs: Seq::empty(),
    }
}

/// The character of a six-bit value in the standard base64 alphabet:
/// `A`-`Z`, `a`-`z`, `0`-`9`, `+`, `/`.
pub open spec fn base64_char(v: int) -> char {
    if v < 26 {
        (65 + v) as char
    } else if v < 52 {
        (97 + (v - 26)) as char
    } else if v < 62 {
        (48 + (v - 52)) as char
    } else if v == 62 {
        '+'
    } else {
        '/'
    }
}

/// Standard base64 with padding: each group of three bytes becomes four
/// characters of six bits each; a last group of one or two bytes is filled
/// with zero bits and padded with `=` to four characters.
pub open spec fn base64_standard(data: Seq<u8>) -> Seq<char>
    decreases data.len(),
{
    let b0 = data[0] as int;
    let b1 = data[1] as int;
    let b2 = data[2] as int;
    if data.len() == 0 {
        Seq::empty()
    } else if data.len() == 1 {
        seq![base64_char(b0 / 4), base64_char((b0 % 4) * 16), '=', '=']
    } else if data.len() == 2 {
        seq![
            base64_char(b0 / 4),
            base64_char((b0 % 4) * 16 + b1 / 16),
            base64_char((b1 % 16) * 4),
            '=',
        ]
    } else {
        seq![
            base64_char(b0 / 4),
            base64_char((b0 % 4) * 16 + b1 / 16),
            base64_char((b1 % 16) * 4 + b2 / 64),
            base64_char(b2 % 64),
        ] + base64_standard(data.subrange(3, data.len() as int))
    }
}

/// The length of the padded base64 encoding of `n` bytes: four characters for
/// each started group of three bytes.
pub open spec fn base64_len(n: nat) -> nat {
    4 * ((n + 2) / 3)
}

/// Encodes bytes with base64's `STANDARD` engine (`Engine::encode`): the
/// standard alphabet with padding. The source sizes the output as
/// `encoded_len` with padding and panics where that size overflows `usize`,
/// which `requires` leaves out.
#[verifier::external_body]
fn encode_base64(data: &[u8]) -> (encoded: String)
    requires
        base64_len(data@.len()) <= usize::MAX,
    ensures
        encoded@ == base64_standard(data@),
{
    base64::Engine::encode(&base64::engine::general_purpose::STANDARD, data)
}

/// The padded encoding has four characters for each started group of three
/// bytes.
pub proof fn lemma_base64_len(data: Seq<u8>)
    ensures
        base64_standard(data).len() == base64_len(data.len()),
    decreases data.len(),
{
    if data.len() >= 3 {
        lemma_base64_len(data.subrange(3, data.len() as int));
    }
}

/// The place with a room added at the end.
pub open spec fn with_room(p: PlaceView, id: Seq<char>, data: Seq<char>) -> PlaceView {
    PlaceView { rooms: p.rooms.push(RoomView { id, data }), ..p }
}

/// The place with a connection added at the end.
pub open spec fn connected(p: PlaceView, other: Seq<char>) -> PlaceView {
    PlaceView { connections: p.connections.push(other), ..p }
}

/// The message of the commit that records a new room.
pub open spec fn build_room_message(room_id: Seq<char>) -> Seq<char> {
    "lau: built room '"@ + room_id + "'"@
}

/// The message of the commit that records a new connection.
pub open spec fn connect_message(other: Seq<char>) -> Seq<char> {
    "lau: connected to '"@ + other + "'"@
}

/// The message of the commit that creates a place.
pub open spec fn place_creation_message(name: Seq<char>) -> Seq<char> {
    "lau: create place '"@ + name + "'"@
}

impl Default for PlaceData {
    fn default() -> (p: Self)
        ensures
            p@ == fresh_place(Seq::empty()),
    {
        let p = PlaceData {
            name: String::new(),
            terrain: String::new(),
            rooms: Vec::new(),
            connections: Vec::new(),
            npcs: Vec::new(),
        };
        assert(p@.rooms =~= Seq::<RoomView>::empty());
        assert(p@.connections =~= Seq::<Seq<char>>::empty());
        assert(p@.npcs =~= Seq::<Seq<char>>::empty());
        p
    }
}

impl PlaceData {
    /// The data of a new place named `name`.
    pub fn named(name: &str) -> (p: Self)
        ensures
            p@ == fresh_place(name@),
    {
        let p = PlaceData {
            name: string_of(name),
            terrain: String::new(),
            rooms: Vec::new(),
            connections: Vec::new(),
            npcs: Vec::new(),
        };
        assert(p@.rooms =~= Seq::<RoomView>::empty());
        assert(p@.connections =~= Seq::<Seq<char>>::empty());
        assert(p@.npcs =~= Seq::<Seq<char>>::empty());
        p
    }

    /// The message of the commit that creates this place.
    pub fn creation_message(&self) -> (m: String)
        ensures
            m@ == place_creation_message(self.name@),
    {
        let mut m = string_of("lau: create place '");
        push_str(&mut m, self.name.as_str());
        push_str(&mut m, "'");
        m
    }

    /// Add a room whose voxel data is already encoded; returns the commit
    /// message.
    pub fn add_encoded_room(&mut self, room_id: &str, encoded: String) -> (m: String)
        ensures
            final(self)@ == with_room(old(self)@, room_id@, encoded@),
            final(self)@.rooms.len() == old(self)@.rooms.len() + 1,
            forall|i: int| 0 <= i < old(self)@.rooms.len() ==> #[trigger] final(self)@.rooms[i]
                == old(self)@.rooms[i],
            final(self)@.rooms.last() == (RoomView { id: room_id@, data: encoded@ }),
            final(self)@.connections == old(self)@.connections,
            final(self)@.name == old(self)@.name,
            m@ == build_room_message(room_id@),
    {
        let room = Room { id: string_of(room_id), data: encoded };
        self.rooms.push(room);
        assert(self@.rooms =~= old(self)@.rooms.push(RoomView { id: room_id@, data: encoded@ }));
        let mut m = string_of("lau: built room '");
        push_str(&mut m, room_id);
        push_str(&mut m, "'");
        m
    }

    /// Build (add) a room with voxel data, stored in base64; returns the
    /// commit message.
    pub fn build_room(&mut self, room_id: &str, data: &[u8]) -> (m: String)
        requires
            base64_len(data@.len()) <= usize::MAX,
        ensures
            final(self)@ == with_room(old(self)@, room_id@, base64_standard(data@)),
            final(self)@.rooms.len() == old(self)@.rooms.len() + 1,
            forall|i: int| 0 <= i < old(self)@.rooms.len() ==> #[trigger] final(self)@.rooms[i]
                == old(self)@.rooms[i],
            final(self)@.rooms.last() == (RoomView { id: room_id@, data: base64_standard(data@) }),
            final(self)@.connections == old(self)@.connections,
            final(self)@.name == old(self)@.name,
            m@ == build_room_message(room_id@),
    {
        let encoded = encode_base64(data);
        self.add_encoded_room(room_id, encoded)
    }

    /// Connect this place to another place; returns the commit message.
    pub fn connect_to(&mut self, other_place: &str) -> (m: String)
        ensures
            final(self)@ == connected(old(self)@, other_place@),
            final(self)@.connections.len() == old(self)@.connections.len() + 1,
            forall|i: int| 0 <= i < old(self)@.connections.len() ==> #[trigger] final(self)@.connections[i]
                == old(self)@.connections[i],
            final(self)@.connections.last() == other_place@,
            final(self)@.rooms == old(self)@.rooms,
            final(self)@.name == old(self)@.name,
            m@ == connect_message(other_place@),
    {
        self.connections.push(string_of(other_place));
        assert(self@.connections =~= old(self)@.connections.push(other_place@));
        let mut m = string_of("lau: connected to '");
        push_str(&mut m, other_place);
        push_str(&mut m, "'");
        m
    }
}

/// Building a room adds exactly one room, after all the rooms there were,
/// however many that is; the place keeps its rooms, name and connections.
pub proof fn lemma_room_appends(p: PlaceView, id: Seq<char>, data: Seq<char>)
    ensures
        with_room(p, id, data).rooms.len() == p.rooms.len() + 1,
        forall|i: int| 0 <= i < p.rooms.len() ==> #[trigger] with_room(p, id, data).rooms[i] == p.rooms[i],
        with_room(p, id, data).rooms[p.rooms.len() as int] == (RoomView { id, data }),
        with_room(p, id, data).name == p.name,
        with_room(p, id, data).connections == p.connections,
        with_room(p, id, data).npcs == p.npcs,
        with_room(p, id, data).terrain == p.terrain,
{
}

/// Connecting to a place adds exactly one connection, after all the
/// connections there were, however many that is; nothing else changes.
pub proof fn lemma_connection_appends(p: PlaceView, other: Seq<char>)
    ensures
        connected(p, other).connections.len() == p.connections.len() + 1,
        forall|i: int| 0 <= i < p.connections.len() ==> #[trigger] connected(p, other).connections[i]
            == p.connections[i],
        connected(p, other).connections[p.connections.len() as int] == other,
        connected(p, other).name == p.name,
        connected(p, other).rooms == p.rooms,
        connected(p, other).npcs == p.npcs,
        connected(p, other).terrain == p.terrain,
{
}

/// Rooms built one after another all stay, in the order they were built:
/// building two rooms on any place leaves both after the rooms it had.
pub proof fn lemma_rooms_accumulate(p: PlaceView, a: RoomView, b: RoomView)
    ensures
        with_room(with_room(p, a.id, a.data), b.id, b.data).rooms.len() == p.rooms.len() + 2,
        with_room(with_room(p, a.id, a.data), b.id, b.data).rooms[p.rooms.len() as int] == a,
        with_room(with_room(p, a.id, a.data), b.id, b.data).rooms[p.rooms.len() + 1int] == b,
{
}

} // verus!
