//! The chat endpoint: which requests are upgraded to a chat room's socket.

use vstd::prelude::*;
use vstd::string::*;

verus! {

/// The status that refuses a request that cannot be upgraded.
pub const UPGRADE_REQUIRED: u16 = 426;

/// The header that asks for a protocol upgrade.
pub const UPGRADE_HEADER: &'static str = "Upgrade";

/// The only protocol that the endpoint upgrades to.
pub const WEBSOCKET: &'static str = "websocket";

/// The query parameter that names the chat room.
pub const ROOM_PARAM: &'static str = "id";

/// The address of the request that a chat room is handed.
pub const ROOM_URL: &'static str = "https://fake-host";

/// The name of the binding under which the chat rooms are found.
pub const ROOMS_BINDING: &'static str = "CHAT";

/// What becomes of a request to the chat endpoint.
pub enum Upgrade {
    /// Answered with this status and nothing else.
    Refused { status: u16 },
    /// Handed on, as a websocket upgrade, to the chat room of this name.
    Forward { room: String },
}

/// The bytes of the one accepted `Upgrade` header value.
pub open spec fn websocket_token() -> Seq<u8> {
    WEBSOCKET.spec_bytes()
}

/// What becomes of a request, given the value of its `Upgrade` header (`None`
/// where it has none) and its room parameter (`None` where it has none).
pub open spec fn upgrade_outcome(header: Option<Seq<u8>>, room: Option<Seq<char>>) -> Option<Seq<char>> {
    if header == Some(websocket_token()) {
        room
    } else {
        None
    }
}

/// Whether two byte strings are equal.
fn bytes_equal(a: &[u8], b: &[u8]) -> (res: bool)
    ensures
        res == (a@ == b@),
{
    if a.len() != b.len() {
        return false;
    }
    let mut i: usize = 0;
    while i < a.len()
        invariant
            a@.len() == b@.len(),
            i <= a@.len(),
            forall|j: int| 0 <= j < i ==> a@[j] == b@[j],
        decreases a@.len() - i,
    {
        if a[i] != b[i] {
            return false;
        }
        i = i + 1;
    }
    assert(a@ =~= b@);
    true
}

/// Decides a request to the chat endpoint: it is handed on to the room it
/// names when its `Upgrade` header is exactly `websocket` and it names a room;
/// otherwise it is refused with `426 Upgrade Required`.
pub fn decide_upgrade(header: Option<&[u8]>, room: Option<String>) -> (res: Upgrade)
    ensures
        match upgrade_outcome(
            match header {
                Some(h) => Some(h@),
                None => None,
            },
            match room {
                Some(r) => Some(r@),
                None => None,
            },
        ) {
            Some(name) => res matches Upgrade::Forward { room: r } && r@ == name,
            None => res matches Upgrade::Refused { status } && status == UPGRADE_REQUIRED,
        },
        (header matches Some(h) && h@ == "websocket".spec_bytes() && room is Some) ==> (
        res matches Upgrade::Forward { room: r } && r@ == room->0@),
        !(header matches Some(h) && h@ == "websocket".spec_bytes() && room is Some) ==> (
        res matches Upgrade::Refused { status } && status == 426),
{
    let upgrade = match header {
        Some(h) => bytes_equal(h, WEBSOCKET.as_bytes()),
        None => false,
    };
    if !upgrade {
        return Upgrade::Refused { status: UPGRADE_REQUIRED };
    }
    match room {
        Some(r) => Upgrade::Forward { room: r },
        None => Upgrade::Refused { status: UPGRADE_REQUIRED },
    }
}


/// A request whose `Upgrade` header is exactly `websocket` and which names a
/// room is handed on to that room, whatever its name.
pub proof fn lemma_upgrade_forwards_named_room(room: Seq<char>)
    ensures
        upgrade_outcome(Some("websocket".spec_bytes()), Some(room)) == Some(room),
{
}

/// A request is refused when it names no room, when it has no `Upgrade`
/// header, or when that header is anything but the bytes of `websocket`.
pub proof fn lemma_upgrade_refuses(header: Option<Seq<u8>>, room: Option<Seq<char>>)
    ensures
        room is None ==> upgrade_outcome(header, room) is None,
        header is None ==> upgrade_outcome(header, room) is None,
        (header matches Some(h) && h != "websocket".spec_bytes()) ==> upgrade_outcome(
            header,
            room,
        ) is None,
{
}

} // verus!
