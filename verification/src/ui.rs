//! Which colour each gameplay widget takes; the screen maps these to its palette.
use vstd::prelude::*;

use crate::data::{AttributeKind, DelayType, ErgType};
use crate::phase::{VagabondGamePhase, WaitKind};

verus! {

/// A colour of the screen's palette; `Source` keeps the widget's own colour.
#[derive(Clone, Copy, PartialEq, Eq, Structural, Debug)]
pub enum UiColor {
    Green,
    Red,
    Yellow,
    White,
    Gray,
    Chartreuse,
    Dim,
    Source,
}

/// The colour of the "next" button under the pointer.
pub open spec fn next_button_color_spec(phase: VagabondGamePhase, attr_pick: Option<AttributeKind>) -> UiColor {
    match phase {
        VagabondGamePhase::Pick => if attr_pick is Some {
            UiColor::Green
        } else {
            UiColor::Red
        },
        VagabondGamePhase::Wait(WaitKind::One) => UiColor::Red,
        VagabondGamePhase::Wait(WaitKind::All) => UiColor::Yellow,
        _ => UiColor::Source,
    }
}

/// The colour of the "next" button under the pointer: in the pick phase green
/// once an attribute is chosen and red before; red while the client's own
/// request is on its way, yellow while it waits for the others.
pub fn next_button_color(phase: VagabondGamePhase, attr_pick: Option<AttributeKind>) -> (color: UiColor)
    ensures
        color == next_button_color_spec(phase, attr_pick),
        !(phase is Pick) && !(phase is Wait) ==> color == UiColor::Source,
        phase is Pick ==> (attr_pick is Some ==> color == UiColor::Green) && (attr_pick is None ==> color
            == UiColor::Red),
        phase == VagabondGamePhase::Wait(WaitKind::One) ==> color == UiColor::Red,
        phase == VagabondGamePhase::Wait(WaitKind::All) ==> color == UiColor::Yellow,
{
    proof {
        law_next_button_color(phase, attr_pick, None);
    }
    match phase {
        VagabondGamePhase::Pick => match attr_pick {
            Some(_) => UiColor::Green,
            None => UiColor::Red,
        },
        VagabondGamePhase::Wait(WaitKind::One) => UiColor::Red,
        VagabondGamePhase::Wait(WaitKind::All) => UiColor::Yellow,
        _ => UiColor::Source,
    }
}

/// The "next" button keeps its own colour in every phase but the pick and the
/// waits, whatever was picked; only in the pick phase does the pick change
/// it (green once chosen, red before); waiting on the own request is red,
/// waiting for the others yellow.
pub proof fn law_next_button_color(
    phase: VagabondGamePhase,
    pick: Option<AttributeKind>,
    other_pick: Option<AttributeKind>,
)
    ensures
        !(phase is Pick) && !(phase is Wait) ==> next_button_color_spec(phase, pick) == UiColor::Source,
        !(phase is Pick) ==> next_button_color_spec(phase, pick) == next_button_color_spec(phase, other_pick),
        phase is Pick && pick is Some ==> next_button_color_spec(phase, pick) == UiColor::Green,
        phase is Pick && pick is None ==> next_button_color_spec(phase, pick) == UiColor::Red,
        phase == VagabondGamePhase::Wait(WaitKind::One) ==> next_button_color_spec(phase, pick) == UiColor::Red,
        phase == VagabondGamePhase::Wait(WaitKind::All) ==> next_button_color_spec(phase, pick)
            == UiColor::Yellow,
{
}

/// The colour of an attribute row under the pointer: green while attributes
/// are picked.
pub fn attr_row_color(phase: VagabondGamePhase) -> (color: UiColor)
    ensures
        color == if phase == VagabondGamePhase::Pick {
            UiColor::Green
        } else {
            UiColor::Source
        },
{
    if phase == VagabondGamePhase::Pick {
        UiColor::Green
    } else {
        UiColor::Source
    }
}

/// Whether a node button lights up under the pointer: only at the start of a turn.
pub fn node_button_hover(phase: VagabondGamePhase) -> (lit: bool)
    ensures
        lit == (phase == VagabondGamePhase::Start),
{
    phase == VagabondGamePhase::Start
}

/// The colour of the icon of `icon_phase` while the game is in `phase`.
pub fn phase_icon_color(phase: VagabondGamePhase, icon_phase: VagabondGamePhase) -> (color: UiColor)
    ensures
        color == if phase == icon_phase {
            UiColor::Chartreuse
        } else {
            UiColor::Dim
        },
{
    if phase == icon_phase {
        UiColor::Chartreuse
    } else {
        UiColor::Dim
    }
}

/// The colour of a rolled value once both sides' erg is known: red when the
/// player has less than the remote, yellow when even, green when more.
pub fn roll_color(local: ErgType, remote: ErgType) -> (color: UiColor)
    ensures
        color == if local < remote {
            UiColor::Red
        } else if local == remote {
            UiColor::Yellow
        } else {
            UiColor::Green
        },
{
    if local < remote {
        UiColor::Red
    } else if local == remote {
        UiColor::Yellow
    } else {
        UiColor::Green
    }
}

/// A process waiting in a machine's queue, as the queue display reads it.
#[derive(Clone, Copy, PartialEq, Eq, Structural, Debug)]
pub struct QueueEntry {
    /// Turns before the process runs.
    pub delay: DelayType,
    /// Whether the local player launched it.
    pub local: bool,
}

/// The first position of `queue` whose process runs after `delay` turns.
pub fn queue_position(queue: &Vec<QueueEntry>, delay: DelayType) -> (position: Option<usize>)
    ensures
        match position {
            Some(i) => i < queue@.len() && queue@[i as int].delay == delay && forall|j: int|
                0 <= j < i ==> (#[trigger] queue@[j]).delay != delay,
            None => forall|j: int| 0 <= j < queue@.len() ==> (#[trigger] queue@[j]).delay != delay,
        },
{
    let n = queue.len();
    let mut i: usize = 0;
    while i < n
        invariant
            n == queue@.len(),
            i <= n,
            forall|j: int| 0 <= j < i ==> (#[trigger] queue@[j]).delay != delay,
        decreases n - i,
    {
        if queue[i].delay == delay {
            return Some(i);
        }
        i = i + 1;
    }
    None
}

/// The colour of the queue slot `delay` of a machine: white when empty, else
/// green for a process of the machine's owner and red for the opponent's.
pub fn queue_slot_color(queue: &Vec<QueueEntry>, delay: DelayType, player_owned: bool) -> (color: UiColor)
    ensures
        (forall|j: int| 0 <= j < queue@.len() ==> (#[trigger] queue@[j]).delay != delay) ==> color
            == UiColor::White,
        forall|i: int|
            0 <= i < queue@.len() && (#[trigger] queue@[i]).delay == delay && (forall|j: int|
                0 <= j < i ==> (#[trigger] queue@[j]).delay != delay) ==> color == if queue@[i].local
                == player_owned {
                UiColor::Green
            } else {
                UiColor::Red
            },
{
    match queue_position(queue, delay) {
        Some(i) => {
            if queue[i].local == player_owned {
                UiColor::Green
            } else {
                UiColor::Red
            }
        },
        None => UiColor::White,
    }
}

} // verus!
