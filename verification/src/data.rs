//! The game data that the screens read, held as plain values.
use vstd::prelude::*;

verus! {

/// Energy ("erg") of one attribute.
pub type ErgType = u32;

/// Energy of the four attributes, in attribute order.
pub type ErgArray = [ErgType; 4];

/// Turns left before a queued process runs.
pub type DelayType = u8;

/// Position of a card in the hand, as sent to the server.
pub type CardIdxType = u8;

/// Identifier of a node of the mission map.
pub type MissionNodeIdType = u8;

/// Game clock.
pub type TickType = u64;

/// Identifier of an actor that stands on a node.
pub type ActorIdType = u64;

/// Position of an actor on its node.
pub type ActorIndexType = u8;

/// Number of attribute kinds (rows of the attribute table).
pub const ATTRIBUTE_COUNT: usize = 4;

#[derive(Clone, Copy, PartialEq, Eq, Structural, Debug)]
pub enum AttributeKind {
    Analyze,
    Breach,
    Compute,
    Disrupt,
}

/// Row of the attribute table, and slot of the erg array, that belongs to `kind`.
pub open spec fn attribute_slot(kind: AttributeKind) -> int {
    match kind {
        AttributeKind::Analyze => 0,
        AttributeKind::Breach => 1,
        AttributeKind::Compute => 2,
        AttributeKind::Disrupt => 3,
    }
}

/// The index of `kind` in an erg or attribute array (its row on screen).
pub fn attribute_index(kind: AttributeKind) -> (index: usize)
    ensures
        index == attribute_slot(kind),
        index < ATTRIBUTE_COUNT,
{
    match kind {
        AttributeKind::Analyze => 0,
        AttributeKind::Breach => 1,
        AttributeKind::Compute => 2,
        AttributeKind::Disrupt => 3,
    }
}

/// The letter that names `kind` on a card.
pub open spec fn attribute_letter_spec(kind: AttributeKind) -> char {
    match kind {
        AttributeKind::Analyze => 'A',
        AttributeKind::Breach => 'B',
        AttributeKind::Compute => 'C',
        AttributeKind::Disrupt => 'D',
    }
}

/// The letter that names `kind` on a card.
pub fn attribute_letter(kind: AttributeKind) -> (c: char)
    ensures
        c == attribute_letter_spec(kind),
{
    match kind {
        AttributeKind::Analyze => 'A',
        AttributeKind::Breach => 'B',
        AttributeKind::Compute => 'C',
        AttributeKind::Disrupt => 'D',
    }
}

/// Access level of an actor.
#[derive(Clone, Copy, PartialEq, Eq, Structural, Debug)]
pub enum AuthLevel {
    Guest,
    User,
    Admin,
    Root,
}

impl AuthLevel {
    /// The label of the level.
    pub fn as_str(&self) -> (s: &'static str)
        ensures
            *self == AuthLevel::Guest ==> s@ == "Guest"@,
            *self == AuthLevel::User ==> s@ == "User"@,
            *self == AuthLevel::Admin ==> s@ == "Admin"@,
            *self == AuthLevel::Root ==> s@ == "Root"@,
    {
        match self {
            AuthLevel::Guest => "Guest",
            AuthLevel::User => "User",
            AuthLevel::Admin => "Admin",
            AuthLevel::Root => "Root",
        }
    }
}

/// The access level read from the low four bits of an actor id.
pub open spec fn inferred_auth(actor_id: u64) -> AuthLevel {
    let low = actor_id % 16;
    if low < 8 {
        AuthLevel::Guest
    } else if low < 12 {
        AuthLevel::User
    } else {
        AuthLevel::Admin
    }
}

/// The access level that an actor shows, read from the low four bits of its id:
/// 0 to 7 Guest, 8 to 11 User, 12 to 15 Admin.
pub fn infer_auth(actor_id: ActorIdType) -> (auth: AuthLevel)
    ensures
        auth == inferred_auth(actor_id),
{
    let low = actor_id & 0x0F;
    assert(low == actor_id % 16) by (bit_vector)
        requires
            low == actor_id & 0x0F,
    ;
    if low < 8 {
        AuthLevel::Guest
    } else if low < 12 {
        AuthLevel::User
    } else if low < 16 {
        AuthLevel::Admin
    } else if low == 16 {
        AuthLevel::Root
    } else {
        AuthLevel::Guest
    }
}

/// No actor id reads as root access: the low four bits never exceed 15.
pub proof fn law_inferred_auth_never_root(actor_id: u64)
    ensures
        inferred_auth(actor_id) != AuthLevel::Root,
{
}

/// Kind of a node of the mission map.
#[derive(Clone, Copy, PartialEq, Eq, Structural, Debug)]
pub enum MissionNodeKind {
    Unknown,
    AccessPoint,
    Backend,
    Control,
    Database,
    Engine,
    Frontend,
    Gateway,
    Hardware,
}

/// Side of a node on which a link leaves it.
#[derive(Clone, Copy, PartialEq, Eq, Structural, Debug)]
pub enum MissionNodeLinkDir {
    North,
    East,
    West,
    South,
}

/// Whether a link between two nodes can be crossed.
#[derive(Clone, Copy, PartialEq, Eq, Structural, Debug)]
pub enum MissionNodeLinkState {
    Closed,
    Open,
}

/// What the player asks of an access point.
#[derive(Clone, Copy, PartialEq, Eq, Structural, Debug)]
pub enum AccessPointIntent {
    Authenticate,
    TransferNext,
    TransferPrev,
}

/// What the player intends to do on the current node at the start of a turn.
#[derive(Clone, Copy, PartialEq, Eq, Structural, Debug)]
pub enum MissionNodeIntent {
    AccessPoint(AccessPointIntent),
    Link(MissionNodeLinkDir),
}

/// Which machines a card may be launched at.
#[derive(Clone, Copy, PartialEq, Eq, Structural, Debug)]
pub enum CardTargetMachineKind {
    Any,
    Local,
    Remote,
}

/// What a card targets (`Nothing`: the card has no target).
#[derive(Clone, Copy, PartialEq, Eq, Structural, Debug)]
pub enum CardTargetValue {
    Nothing,
    Machine(CardTargetMachineKind),
    Actor,
}

/// One instruction of a card's launch rules; only the targeting instruction
/// matters to the screens.
#[derive(Clone, Copy, PartialEq, Eq, Structural, Debug)]
pub enum LaunchInstruction {
    Targ(CardTargetValue),
    Other,
}

/// Where the player dropped a card.
#[derive(Clone, Copy, PartialEq, Eq, Structural, Debug)]
pub enum PickedCardTarget {
    MachineLocal,
    MachineRemote,
    Actor(ActorIndexType),
}

/// The target of a picked card, as sent to the server.
#[derive(Clone, Copy, PartialEq, Eq, Structural, Debug)]
pub enum CardTarget {
    Local,
    Remote(MissionNodeIdType),
    Actor(ActorIndexType),
}

/// The two machines on the gameplay screen.
#[derive(Clone, Copy, PartialEq, Eq, Structural, Debug)]
pub enum MachineKind {
    Local,
    Remote,
}

/// A token the player was granted.
#[derive(Clone, Copy, PartialEq, Eq, Structural, Debug)]
pub enum TokenKind {
    Invalid,
    Authorization(AuthLevel),
    Credentials(AuthLevel),
}

} // verus!
