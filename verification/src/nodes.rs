//! What the panel of the current mission node shows: its links, its actors,
//! its content, and the access point's title.
use vstd::prelude::*;
use vstd::string::*;

use crate::data::{
    infer_auth, inferred_auth, ActorIdType, AuthLevel, MissionNodeIdType, MissionNodeLinkDir,
    MissionNodeLinkState,
};
use crate::text::{push_zero_padded, zero_padded};

verus! {

/// Links a node can have, one per side.
pub const MAX_LINK_COUNT: usize = 4;

/// Actors shown on a node.
pub const MAX_ACTOR_COUNT: usize = 8;

/// Content entries shown on a node.
pub const MAX_CONTENT_COUNT: usize = 4;

/// The side shown in link slot `index` of the panel: north, east, west, south.
pub open spec fn link_slot_dir(index: int) -> MissionNodeLinkDir {
    if index == 0 {
        MissionNodeLinkDir::North
    } else if index == 1 {
        MissionNodeLinkDir::East
    } else if index == 2 {
        MissionNodeLinkDir::West
    } else {
        MissionNodeLinkDir::South
    }
}

/// The side shown in link slot `index` of the panel.
pub fn link_slot_direction(index: usize) -> (dir: MissionNodeLinkDir)
    requires
        index < MAX_LINK_COUNT,
    ensures
        dir == link_slot_dir(index as int),
{
    if index == 0 {
        MissionNodeLinkDir::North
    } else if index == 1 {
        MissionNodeLinkDir::East
    } else if index == 2 {
        MissionNodeLinkDir::West
    } else {
        MissionNodeLinkDir::South
    }
}

/// A link that leaves the current node.
#[derive(Clone, Copy, PartialEq, Eq, Structural, Debug)]
pub struct MissionNodeLink {
    pub direction: MissionNodeLinkDir,
    pub target: MissionNodeIdType,
    pub state: MissionNodeLinkState,
    pub damage: u32,
}

/// What a link slot of the panel shows.
#[derive(Clone, Copy, PartialEq, Eq, Structural, Debug)]
pub struct LinkView {
    /// A link leaves on this side.
    pub visible: bool,
    /// The node the link leads to.
    pub target: Option<MissionNodeIdType>,
    /// The lock icon (and the damage left) shows.
    pub locked: bool,
    /// The open-lock icon shows.
    pub unlocked: bool,
    /// Damage the link can still take.
    pub damage_left: u32,
}

/// The first link of `links` that leaves on side `dir`.
pub open spec fn first_link(links: Seq<MissionNodeLink>, dir: MissionNodeLinkDir, i: int) -> bool {
    0 <= i < links.len() && links[i].direction == dir && forall|j: int|
        0 <= j < i ==> (#[trigger] links[j]).direction != dir
}

/// What the slot for side `dir` shows: the first link on that side, if any;
/// the damage left is `max_damage` less the link's damage, never below zero.
pub fn link_view(links: &Vec<MissionNodeLink>, dir: MissionNodeLinkDir, max_damage: u32) -> (view:
    LinkView)
    ensures
        (forall|j: int| 0 <= j < links@.len() ==> (#[trigger] links@[j]).direction != dir) ==> view
            == (LinkView {
            visible: false,
            target: None,
            locked: false,
            unlocked: false,
            damage_left: max_damage,
        }),
        forall|i: int|
            #![trigger links@[i]]
            first_link(links@, dir, i) ==> view == (LinkView {
                visible: true,
                target: Some(links@[i].target),
                locked: links@[i].state == MissionNodeLinkState::Closed,
                unlocked: links@[i].state == MissionNodeLinkState::Open,
                damage_left: if links@[i].damage <= max_damage {
                    (max_damage - links@[i].damage) as u32
                } else {
                    0
                },
            }),
{
    let n = links.len();
    let mut i: usize = 0;
    while i < n
        invariant
            n == links@.len(),
            i <= n,
            forall|j: int| 0 <= j < i ==> (#[trigger] links@[j]).direction != dir,
        decreases n - i,
    {
        let link = links[i];
        if link.direction == dir {
            let view = LinkView {
                visible: true,
                target: Some(link.target),
                locked: link.state == MissionNodeLinkState::Closed,
                unlocked: link.state == MissionNodeLinkState::Open,
                damage_left: max_damage.saturating_sub(link.damage),
            };
            proof {
                assert forall|k: int| #![trigger links@[k]] first_link(links@, dir, k) implies k
                    == i by {
                    if k < i {
                        assert(links@[k].direction != dir);
                    } else if k > i {
                        assert(links@[i as int].direction != dir);
                    }
                }
            }
            return view;
        }
        i = i + 1;
    }
    LinkView { visible: false, target: None, locked: false, unlocked: false, damage_left: max_damage }
}

/// The sum of the four 16-bit pieces of an actor id.
pub open spec fn hue_sum_spec(id: u64) -> nat {
    (id % 0x10000 + (id / 0x10000) % 0x10000 + (id / 0x1_0000_0000) % 0x10000 + (id
        / 0x1_0000_0000_0000) % 0x10000) as nat
}

/// The sum of the four 16-bit pieces of an actor id; the actor's colour hue is
/// this sum over `0xFFFF`, times 360 degrees.
pub fn hue_sum(id: ActorIdType) -> (sum: u32)
    ensures
        sum == hue_sum_spec(id),
        sum <= 4 * 0xFFFF,
{
    let a = id & 0xFFFF;
    let b = (id >> 16) & 0xFFFF;
    let c = (id >> 32) & 0xFFFF;
    let d = (id >> 48) & 0xFFFF;
    assert(a == id % 0x10000 && b == (id / 0x10000) % 0x10000 && c == (id / 0x1_0000_0000) % 0x10000
        && d == (id / 0x1_0000_0000_0000) % 0x10000) by (bit_vector)
        requires
            a == id & 0xFFFF,
            b == (id >> 16) & 0xFFFF,
            c == (id >> 32) & 0xFFFF,
            d == (id >> 48) & 0xFFFF,
    ;
    (a + b + c + d) as u32
}

/// What an actor slot of the panel shows.
#[derive(Clone, Copy, PartialEq, Eq, Structural, Debug)]
pub struct ActorView {
    pub id: ActorIdType,
    pub auth: AuthLevel,
    pub hue_sum: u32,
}

/// What actor slot `index` shows: the actor at that position of `actors`,
/// with the access level read from its id, or nothing past the last actor.
pub fn actor_view(actors: &Vec<ActorIdType>, index: usize) -> (view: Option<ActorView>)
    ensures
        index < actors@.len() ==> view == Some(
            ActorView {
                id: actors@[index as int],
                auth: inferred_auth(actors@[index as int]),
                hue_sum: hue_sum_spec(actors@[index as int]) as u32,
            },
        ),
        index >= actors@.len() ==> view is None,
{
    if index < actors.len() {
        let id = actors[index];
        Some(ActorView { id, auth: infer_auth(id), hue_sum: hue_sum(id) })
    } else {
        None
    }
}

/// Whether slot `index` of a list shown with `count` entries is visible.
pub fn slot_visible(index: usize, count: usize) -> (visible: bool)
    ensures
        visible == (index < count),
{
    index < count
}

/// The title of an access point: `Access Point` and its node id on three digits.
pub fn access_point_title(id: MissionNodeIdType) -> (title: String)
    ensures
        title@ == "Access Point "@ + zero_padded(id as nat, 3),
{
    let mut title = String::from_str("Access Point ");
    push_zero_padded(&mut title, id as u64, 3);
    title
}

/// The letter shown for an actor: the first character of its name, `?` when
/// the name is empty.
pub fn initial_letter(name: &str) -> (letter: char)
    ensures
        letter == if name@.len() > 0 {
            name@[0]
        } else {
            '?'
        },
{
    if name.unicode_len() > 0 {
        name.get_char(0)
    } else {
        '?'
    }
}

/// A button of the node panel, carrying what a click on it chooses.
pub struct MissionNodeButton<T> {
    pub data: T,
}

impl<T> MissionNodeButton<T> {
    /// A button that chooses `data`.
    pub fn new(data: T) -> (button: Self)
        ensures
            button.data == data,
    {
        Self { data }
    }
}

} // verus!
