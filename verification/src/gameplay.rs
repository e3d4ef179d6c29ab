//! The state that the gameplay screen keeps between frames, and the rules that
//! change it: picking cards and paying their erg, choosing an attribute,
//! choosing a node action, the machines' terminals.
use std::collections::{HashMap, VecDeque};

use vstd::prelude::*;
use vstd::string::*;

use crate::card::{rules_allow, valid_target, VagabondCard};
use crate::data::{
    attribute_index, attribute_slot, AttributeKind, CardIdxType, CardTarget, CardTargetMachineKind,
    CardTargetValue, ErgArray, ErgType, LaunchInstruction, MachineKind, MissionNodeIdType, MissionNodeIntent, PickedCardTarget, TickType,
};
use crate::phase::{
    event_phase, next_request_spec, phase_after_event, phase_after_next, phase_after_next_spec,
    GateEvent, NextRequest, VagabondGamePhase, WaitKind,
};
use crate::text::{push_char, push_zero_padded, zero_padded};

verus! {

broadcast use vstd::std_specs::hash::group_hash_axioms;

/// Cards in the hand.
pub const HAND_SIZE: usize = 5;

/// Programs shown as running on each machine.
pub const RUNNING_PROGRAM_COUNT: usize = 6;

/// Lines kept by each machine's terminal.
pub const TTY_MESSAGE_COUNT: usize = 9;

/// Slots of each machine's process queue.
pub const PROCESS_QUEUE_SIZE: u8 = 10;

/// The node action chosen at the start of a turn, and the button that shows it.
pub struct MissionNodeAction {
    pub intent: Option<MissionNodeIntent>,
    pub entity: Option<u64>,
}

/// The gameplay screen's state.
pub struct GameplayContext {
    pub player_id: String,
    pub tick: TickType,
    pub phase: VagabondGamePhase,
    pub attr_pick: Option<AttributeKind>,
    pub card_picks: HashMap<CardIdxType, CardTarget>,
    pub node_action: MissionNodeAction,
    pub hand: Vec<VagabondCard>,
    /// The player's erg as last reported, less the cost of the cards picked since.
    pub erg: ErgArray,
    pub tty_local: VecDeque<String>,
    pub tty_remote: VecDeque<String>,
    pub current_remote: MissionNodeIdType,
}

/// What a card pick records for a drop on `target`.
pub open spec fn card_target_for(target: PickedCardTarget, current_remote: MissionNodeIdType) -> CardTarget {
    match target {
        PickedCardTarget::MachineLocal => CardTarget::Local,
        PickedCardTarget::MachineRemote => CardTarget::Remote(current_remote),
        PickedCardTarget::Actor(index) => CardTarget::Actor(index),
    }
}

/// The key under which the card at `index` of the hand is picked.
pub open spec fn pick_key(index: usize) -> CardIdxType {
    (index % 256) as CardIdxType
}

/// The card at `index` of `hand` exists and the erg of its kind covers its cost.
pub open spec fn affordable(hand: Seq<VagabondCard>, erg: ErgArray, index: int) -> bool {
    0 <= index < hand.len() && hand[index].cost <= erg[attribute_slot(hand[index].kind)]
}

/// `erg` with `cost` paid from the slot of `kind`.
pub open spec fn erg_paid(erg: Seq<ErgType>, kind: AttributeKind, cost: ErgType) -> Seq<ErgType> {
    erg.update(attribute_slot(kind), (erg[attribute_slot(kind)] - cost) as ErgType)
}

/// `erg` with `cost` given back to the slot of `kind`.
pub open spec fn erg_refunded(erg: Seq<ErgType>, kind: AttributeKind, cost: ErgType) -> Seq<ErgType> {
    erg.update(attribute_slot(kind), (erg[attribute_slot(kind)] + cost) as ErgType)
}

/// The node action after a click on button `target` whose action is `button`
/// (`None`: the button carries none): the chosen button is taken back, another
/// button is chosen.
pub open spec fn node_action_after(
    intent: Option<MissionNodeIntent>,
    entity: Option<u64>,
    target: u64,
    button: Option<MissionNodeIntent>,
) -> (Option<MissionNodeIntent>, Option<u64>) {
    match button {
        None => (intent, entity),
        Some(i) => if entity == Some(target) {
            (None, None)
        } else {
            (Some(i), Some(target))
        },
    }
}

/// The terminal line that `message` becomes at `tick`: `[ttt] message`.
pub open spec fn tty_line(tick: TickType, message: Seq<char>) -> Seq<char> {
    seq!['['] + zero_padded(tick as nat, 3) + seq![']', ' '] + message
}

/// `queue` after `line` was printed: newest first, at most `TTY_MESSAGE_COUNT` lines.
pub open spec fn tty_pushed(queue: Seq<String>, new_queue: Seq<String>, line: Seq<char>) -> bool {
    let full = queue.len() + 1 > TTY_MESSAGE_COUNT;
    &&& new_queue.len() == if full {
        queue.len() as int
    } else {
        queue.len() + 1int
    }
    &&& new_queue[0]@ == line
    &&& forall|i: int| 1 <= i < new_queue.len() ==> new_queue[i] == #[trigger] queue[i - 1]
}

/// What a drag on a hand card does.
#[derive(Clone, Copy, PartialEq, Eq, Structural, Debug)]
pub enum CardDragStart {
    /// Cards are only dragged in the play phase.
    Ignored,
    /// The card is missing or its erg does not cover it: the card frame blinks.
    Blocked,
    /// A new pick begins: an indicator follows the pointer.
    Indicate,
    /// A picked card is taken back: its cost is refunded and its pick dropped.
    Unpicked,
}

/// What choosing an attribute does to the attribute rows.
#[derive(Clone, Copy, PartialEq, Eq, Structural, Debug)]
pub enum AttrRows {
    /// Attributes are only chosen in the pick phase.
    Unchanged,
    /// No attribute yet: the rows glow and every value is grey.
    Prompt,
    /// The row of this index turns green, the others grey.
    Chosen(usize),
}

/// What a click on a node button does.
pub struct NodeClick {
    /// The button whose highlight is taken back, if any.
    pub restore: Option<u64>,
    /// Whether the clicked button is now highlighted.
    pub highlight: bool,
}

impl GameplayContext {
    /// The state on entering the gameplay screen.
    pub fn new(player_id: String) -> (context: Self)
        ensures
            context.player_id == player_id,
            context.tick == 0,
            context.phase == VagabondGamePhase::Start,
            context.attr_pick is None,
            context.card_picks@ == Map::<CardIdxType, CardTarget>::empty(),
            context.node_action.intent is None,
            context.node_action.entity is None,
            context.hand@.len() == 0,
            context.erg@ == seq![0u32, 0u32, 0u32, 0u32],
            context.tty_local@.len() == 0,
            context.tty_remote@.len() == 0,
            context.current_remote == 1,
    {
        let context = GameplayContext {
            player_id,
            tick: 0,
            phase: VagabondGamePhase::Start,
            attr_pick: None,
            card_picks: HashMap::new(),
            node_action: MissionNodeAction { intent: None, entity: None },
            hand: Vec::new(),
            erg: [0, 0, 0, 0],
            tty_local: VecDeque::new(),
            tty_remote: VecDeque::new(),
            current_remote: 1,
        };
        assert(context.erg@ =~= seq![0u32, 0u32, 0u32, 0u32]);
        context
    }

    /// Starts a new turn at `tick`: the attribute and card picks are dropped.
    pub fn reset(&mut self, tick: TickType)
        ensures
            final(self).tick == tick,
            final(self).attr_pick is None,
            final(self).card_picks@ == Map::<CardIdxType, CardTarget>::empty(),
            final(self).phase == old(self).phase,
            final(self).player_id == old(self).player_id,
            final(self).node_action == old(self).node_action,
            final(self).hand == old(self).hand,
            final(self).erg == old(self).erg,
            final(self).tty_local == old(self).tty_local,
            final(self).tty_remote == old(self).tty_remote,
            final(self).current_remote == old(self).current_remote,
    {
        self.attr_pick = None;
        self.card_picks.clear();
        self.tick = tick;
    }

    /// Records that the card at `index` of the hand was dropped on `target`.
    pub fn add_card_pick(&mut self, index: usize, target: PickedCardTarget)
        ensures
            final(self).card_picks@ == old(self).card_picks@.insert(
                pick_key(index),
                card_target_for(target, old(self).current_remote),
            ),
            final(self).tick == old(self).tick,
            final(self).phase == old(self).phase,
            final(self).attr_pick == old(self).attr_pick,
            final(self).player_id == old(self).player_id,
            final(self).node_action == old(self).node_action,
            final(self).hand == old(self).hand,
            final(self).erg == old(self).erg,
            final(self).tty_local == old(self).tty_local,
            final(self).tty_remote == old(self).tty_remote,
            final(self).current_remote == old(self).current_remote,
    {
        let card_idx = (index % 256) as CardIdxType;
        let card_target = match target {
            PickedCardTarget::MachineLocal => CardTarget::Local,
            PickedCardTarget::MachineRemote => CardTarget::Remote(self.current_remote),
            PickedCardTarget::Actor(actor) => CardTarget::Actor(actor),
        };
        self.card_picks.insert(card_idx, card_target);
    }

    /// A drag begins on the hand card at `hand_index`; `has_indicator` tells whether
    /// that card already carries a pick indicator.
    pub fn start_card_drag(&mut self, hand_index: usize, has_indicator: bool) -> (outcome: CardDragStart)
        requires
            old(self).phase == VagabondGamePhase::Play && has_indicator && hand_index < old(self).hand@.len()
                ==> old(self).erg[attribute_slot(old(self).hand@[hand_index as int].kind)]
                + old(self).hand@[hand_index as int].cost <= ErgType::MAX,
        ensures
            old(self).phase != VagabondGamePhase::Play ==> outcome == CardDragStart::Ignored
                && *final(self) == *old(self),
            old(self).phase == VagabondGamePhase::Play && !has_indicator ==> *final(self) == *old(self) && (
            if affordable(old(self).hand@, old(self).erg, hand_index as int) {
                outcome == CardDragStart::Indicate
            } else {
                outcome == CardDragStart::Blocked
            }),
            old(self).phase == VagabondGamePhase::Play && !has_indicator && hand_index < old(self).hand@.len()
                && old(self).hand@[hand_index as int].cost <= old(self).erg[attribute_slot(
                old(self).hand@[hand_index as int].kind,
            )] ==> outcome == CardDragStart::Indicate,
            old(self).phase == VagabondGamePhase::Play && !has_indicator && (hand_index >= old(self).hand@.len()
                || old(self).hand@[hand_index as int].cost > old(self).erg[attribute_slot(
                old(self).hand@[hand_index as int].kind,
            )]) ==> outcome == CardDragStart::Blocked,
            old(self).phase == VagabondGamePhase::Play && has_indicator ==> {
                &&& outcome == CardDragStart::Unpicked
                &&& final(self).card_picks@ == old(self).card_picks@.remove(pick_key(hand_index))
                &&& final(self).erg@ == if hand_index < old(self).hand@.len() {
                    erg_refunded(
                        old(self).erg@,
                        old(self).hand@[hand_index as int].kind,
                        old(self).hand@[hand_index as int].cost,
                    )
                } else {
                    old(self).erg@
                }
                &&& final(self).tick == old(self).tick
                &&& final(self).phase == old(self).phase
                &&& final(self).attr_pick == old(self).attr_pick
                &&& final(self).player_id == old(self).player_id
                &&& final(self).node_action == old(self).node_action
                &&& final(self).hand == old(self).hand
                &&& final(self).tty_local == old(self).tty_local
                &&& final(self).tty_remote == old(self).tty_remote
                &&& final(self).current_remote == old(self).current_remote
            },
    {
        if self.phase != VagabondGamePhase::Play {
            return CardDragStart::Ignored;
        }
        if !has_indicator {
            if hand_index < self.hand.len() {
                let k = attribute_index(self.hand[hand_index].kind);
                if self.hand[hand_index].cost <= self.erg[k] {
                    return CardDragStart::Indicate;
                }
            }
            return CardDragStart::Blocked;
        }
        if hand_index < self.hand.len() {
            let k = attribute_index(self.hand[hand_index].kind);
            let cost = self.hand[hand_index].cost;
            self.erg[k] = self.erg[k] + cost;
        }
        let key = (hand_index % 256) as CardIdxType;
        self.card_picks.remove(&key);
        CardDragStart::Unpicked
    }

    /// The card being dragged from `hand_index` is dropped on `target`. When the
    /// card may be launched there, the pick is recorded, its cost is paid, and
    /// the result is true.
    pub fn drop_card(&mut self, hand_index: usize, target: PickedCardTarget) -> (picked: bool)
        requires
            hand_index < old(self).hand@.len() && rules_allow(
                old(self).hand@[hand_index as int].launch_rules@,
                target,
            ) ==> old(self).hand@[hand_index as int].cost <= old(self).erg[attribute_slot(
                old(self).hand@[hand_index as int].kind,
            )],
        ensures
            picked == (hand_index < old(self).hand@.len() && rules_allow(
                old(self).hand@[hand_index as int].launch_rules@,
                target,
            )),
            picked ==> final(self).card_picks@ == old(self).card_picks@.insert(
                pick_key(hand_index),
                card_target_for(target, old(self).current_remote),
            ) && final(self).erg@ == erg_paid(
                old(self).erg@,
                old(self).hand@[hand_index as int].kind,
                old(self).hand@[hand_index as int].cost,
            ),
            !picked ==> final(self).card_picks@ == old(self).card_picks@ && final(self).erg
                == old(self).erg,
            picked && target is Actor ==> exists|j: int|
                0 <= j < old(self).hand@[hand_index as int].launch_rules@.len()
                    && old(self).hand@[hand_index as int].launch_rules@[j] == LaunchInstruction::Targ(
                    CardTargetValue::Actor,
                ),
            picked && target is MachineRemote ==> exists|j: int|
                0 <= j < old(self).hand@[hand_index as int].launch_rules@.len() && (old(
                    self,
                ).hand@[hand_index as int].launch_rules@[j] == LaunchInstruction::Targ(
                    CardTargetValue::Machine(CardTargetMachineKind::Remote),
                ) || old(self).hand@[hand_index as int].launch_rules@[j] == LaunchInstruction::Targ(
                    CardTargetValue::Machine(CardTargetMachineKind::Any),
                )),
            picked && target is MachineLocal ==> exists|j: int|
                0 <= j < old(self).hand@[hand_index as int].launch_rules@.len() && (old(
                    self,
                ).hand@[hand_index as int].launch_rules@[j] == LaunchInstruction::Targ(
                    CardTargetValue::Machine(CardTargetMachineKind::Local),
                ) || old(self).hand@[hand_index as int].launch_rules@[j] == LaunchInstruction::Targ(
                    CardTargetValue::Machine(CardTargetMachineKind::Any),
                )),
            final(self).tick == old(self).tick,
            final(self).phase == old(self).phase,
            final(self).attr_pick == old(self).attr_pick,
            final(self).player_id == old(self).player_id,
            final(self).node_action == old(self).node_action,
            final(self).hand == old(self).hand,
            final(self).tty_local == old(self).tty_local,
            final(self).tty_remote == old(self).tty_remote,
            final(self).current_remote == old(self).current_remote,
    {
        if hand_index < self.hand.len() {
            if valid_target(&self.hand[hand_index], target) {
                let k = attribute_index(self.hand[hand_index].kind);
                let cost = self.hand[hand_index].cost;
                self.add_card_pick(hand_index, target);
                self.erg[k] = self.erg[k] - cost;
                return true;
            }
        }
        false
    }

    /// The player chooses an attribute (`None`: the choice is asked for again).
    /// Only the pick phase takes a choice; a chosen attribute is remembered.
    pub fn choose_attr(&mut self, kind: Option<AttributeKind>) -> (rows: AttrRows)
        ensures
            old(self).phase != VagabondGamePhase::Pick ==> rows == AttrRows::Unchanged && *final(self) == *old(self),
            old(self).phase == VagabondGamePhase::Pick ==> match kind {
                None => rows == AttrRows::Prompt && *final(self) == *old(self),
                Some(k) => rows == AttrRows::Chosen(attribute_slot(k) as usize)
                    && final(self).attr_pick == Some(k) && final(self).tick == old(self).tick
                    && final(self).phase == old(self).phase && final(self).card_picks
                    == old(self).card_picks && final(self).player_id == old(self).player_id
                    && final(self).node_action == old(self).node_action && final(self).hand
                    == old(self).hand && final(self).erg == old(self).erg
                    && final(self).tty_local == old(self).tty_local && final(self).tty_remote
                    == old(self).tty_remote && final(self).current_remote
                    == old(self).current_remote,
            },
    {
        if self.phase != VagabondGamePhase::Pick {
            return AttrRows::Unchanged;
        }
        match kind {
            None => AttrRows::Prompt,
            Some(k) => {
                self.attr_pick = Some(k);
                AttrRows::Chosen(attribute_index(k))
            },
        }
    }

    /// A click on the node button `target`, whose action is `intent` (`None`
    /// when the button carries none). Only the start phase takes a node
    /// action: the previous choice loses its highlight, a click on the chosen
    /// button takes the choice back, a click on another one chooses it.
    pub fn click_node_button(&mut self, target: u64, intent: Option<MissionNodeIntent>) -> (click:
        NodeClick)
        ensures
            old(self).phase != VagabondGamePhase::Start ==> click.restore is None && !click.highlight
                && *final(self) == *old(self),
            old(self).phase == VagabondGamePhase::Start ==> {
                &&& click.restore == old(self).node_action.entity
                &&& match intent {
                    None => !click.highlight && final(self).node_action == old(self).node_action,
                    Some(i) => if old(self).node_action.entity == Some(target) {
                        !click.highlight && final(self).node_action.intent is None
                            && final(self).node_action.entity is None
                    } else {
                        click.highlight && final(self).node_action.intent == Some(i)
                            && final(self).node_action.entity == Some(target)
                    },
                }
                &&& final(self).tick == old(self).tick
                &&& final(self).phase == old(self).phase
                &&& final(self).attr_pick == old(self).attr_pick
                &&& final(self).card_picks == old(self).card_picks
                &&& final(self).player_id == old(self).player_id
                &&& final(self).hand == old(self).hand
                &&& final(self).erg == old(self).erg
                &&& final(self).tty_local == old(self).tty_local
                &&& final(self).tty_remote == old(self).tty_remote
                &&& final(self).current_remote == old(self).current_remote
            },
    {
        if self.phase != VagabondGamePhase::Start {
            return NodeClick { restore: None, highlight: false };
        }
        let restore = self.node_action.entity;
        match intent {
            None => NodeClick { restore, highlight: false },
            Some(i) => {
                let same = match self.node_action.entity {
                    Some(e) => e == target,
                    None => false,
                };
                if same {
                    self.node_action = MissionNodeAction { intent: None, entity: None };
                    NodeClick { restore, highlight: false }
                } else {
                    self.node_action = MissionNodeAction { intent: Some(i), entity: Some(target) };
                    NodeClick { restore, highlight: true }
                }
            },
        }
    }

    /// What a press of the "next" button sends: the node intent at the start
    /// of a turn, the attribute in the pick phase, the picked cards in the play
    /// phase, the end of the turn in the draw phase, nothing while waiting.
    pub fn next_request(&self) -> (request: NextRequest)
        ensures
            request == next_request_spec(self.phase, self.node_action.intent, self.attr_pick),
    {
        crate::phase::next_request(self.phase, self.node_action.intent, self.attr_pick)
    }

    /// The "next" request went out (`sent`) or not: once sent, the client
    /// waits for the server's answer.
    pub fn next_sent(&mut self, sent: bool)
        ensures
            final(self).phase == phase_after_next_spec(old(self).phase, sent),
            final(self).tick == old(self).tick,
            final(self).attr_pick == old(self).attr_pick,
            final(self).card_picks == old(self).card_picks,
            final(self).player_id == old(self).player_id,
            final(self).node_action == old(self).node_action,
            final(self).hand == old(self).hand,
            final(self).erg == old(self).erg,
            final(self).tty_local == old(self).tty_local,
            final(self).tty_remote == old(self).tty_remote,
            final(self).current_remote == old(self).current_remote,
    {
        self.phase = phase_after_next(self.phase, sent);
    }

    /// Applies a server message: a tick starts a new turn, and the phase moves
    /// as `phase_after_event` says. Returns the new phase, if any.
    pub fn apply_event(&mut self, event: &GateEvent) -> (phase: Option<VagabondGamePhase>)
        ensures
            phase == phase_after_event(*event),
            match *event {
                GateEvent::PlayCard { results } => {
                    &&& (forall|i: int| 0 <= i < results@.len() ==> results@[i]) ==> final(self).phase
                        == VagabondGamePhase::Wait(WaitKind::All)
                    &&& (exists|i: int| 0 <= i < results@.len() && !results@[i]) ==> phase is None
                        && final(self).phase == old(self).phase
                },
                _ => true,
            },
            final(self).phase == match phase {
                Some(p) => p,
                None => old(self).phase,
            },
            match *event {
                GateEvent::Tick { tick } => final(self).tick == tick && final(self).attr_pick is None
                    && final(self).card_picks@ == Map::<CardIdxType, CardTarget>::empty(),
                _ => final(self).tick == old(self).tick && final(self).attr_pick == old(self).attr_pick && final(self).card_picks == old(self).card_picks,
            },
            final(self).player_id == old(self).player_id,
            final(self).node_action == old(self).node_action,
            final(self).hand == old(self).hand,
            final(self).erg == old(self).erg,
            final(self).tty_local == old(self).tty_local,
            final(self).tty_remote == old(self).tty_remote,
            final(self).current_remote == old(self).current_remote,
    {
        match event {
            GateEvent::Tick { tick } => self.reset(*tick),
            _ => {},
        }
        let phase = event_phase(event);
        match phase {
            Some(p) => {
                self.phase = p;
            },
            None => {},
        }
        phase
    }

    /// Prints `message` on the terminal of `kind`, stamped with the current tick.
    pub fn push_tty(&mut self, kind: MachineKind, message: &str)
        ensures
            kind == MachineKind::Local ==> tty_pushed(
                old(self).tty_local@,
                final(self).tty_local@,
                tty_line(old(self).tick, message@),
            ) && final(self).tty_remote == old(self).tty_remote,
            kind == MachineKind::Remote ==> tty_pushed(
                old(self).tty_remote@,
                final(self).tty_remote@,
                tty_line(old(self).tick, message@),
            ) && final(self).tty_local == old(self).tty_local,
            final(self).tick == old(self).tick,
            final(self).phase == old(self).phase,
            final(self).attr_pick == old(self).attr_pick,
            final(self).card_picks == old(self).card_picks,
            final(self).player_id == old(self).player_id,
            final(self).node_action == old(self).node_action,
            final(self).hand == old(self).hand,
            final(self).erg == old(self).erg,
            final(self).current_remote == old(self).current_remote,
    {
        let mut text = String::new();
        push_char(&mut text, '[');
        push_zero_padded(&mut text, self.tick, 3);
        push_char(&mut text, ']');
        push_char(&mut text, ' ');
        text.append(message);
        proof {
            assert(text@ =~= tty_line(self.tick, message@));
        }
        match kind {
            MachineKind::Local => push_line(&mut self.tty_local, text),
            MachineKind::Remote => push_line(&mut self.tty_remote, text),
        }
    }

    /// The text of line `slot` of the terminal of `kind`: empty past the last line.
    pub fn tty_text(&self, kind: MachineKind, slot: usize) -> (text: String)
        ensures
            kind == MachineKind::Local ==> text@ == if slot < self.tty_local@.len() {
                self.tty_local@[slot as int]@
            } else {
                Seq::<char>::empty()
            },
            kind == MachineKind::Remote ==> text@ == if slot < self.tty_remote@.len() {
                self.tty_remote@[slot as int]@
            } else {
                Seq::<char>::empty()
            },
    {
        let queue = match kind {
            MachineKind::Local => &self.tty_local,
            MachineKind::Remote => &self.tty_remote,
        };
        if slot < queue.len() {
            queue[slot].clone()
        } else {
            String::new()
        }
    }
}

/// Taking back a card picked this turn undoes the pick: its cost returns to
/// the erg it was paid from, and the hand index is no longer picked.
pub proof fn law_unpick_undoes_pick(
    erg: Seq<ErgType>,
    picks: Map<CardIdxType, CardTarget>,
    kind: AttributeKind,
    cost: ErgType,
    key: CardIdxType,
    target: CardTarget,
)
    requires
        erg.len() == 4,
        cost <= erg[attribute_slot(kind)],
        !picks.contains_key(key),
    ensures
        erg_refunded(erg_paid(erg, kind, cost), kind, cost) == erg,
        picks.insert(key, target).remove(key) == picks,
{
    assert(erg_refunded(erg_paid(erg, kind, cost), kind, cost) =~= erg);
    assert(picks.insert(key, target).remove(key) =~= picks);
}

/// A drag may begin on a hand card exactly when the card exists and the erg
/// of its kind is at least its cost; a cost equal to that erg is covered, a
/// cost above it is not.
pub proof fn law_pick_covered_iff(hand: Seq<VagabondCard>, erg: ErgArray, index: int)
    ensures
        affordable(hand, erg, index) <==> (0 <= index < hand.len() && hand[index].cost <= erg[attribute_slot(
            hand[index].kind,
        )]),
        0 <= index < hand.len() && hand[index].cost == erg[attribute_slot(hand[index].kind)]
            ==> affordable(hand, erg, index),
        0 <= index < hand.len() && hand[index].cost > erg[attribute_slot(hand[index].kind)]
            ==> !affordable(hand, erg, index),
        !(0 <= index < hand.len()) ==> !affordable(hand, erg, index),
{
}

/// A card whose drag could begin (its erg covers it) can be paid for when it
/// is dropped on a place it may be launched at: the erg does not go below zero.
pub proof fn law_started_pick_is_payable(hand: Seq<VagabondCard>, erg: ErgArray, index: int, target: PickedCardTarget)
    requires
        affordable(hand, erg, index),
        rules_allow(hand[index].launch_rules@, target),
    ensures
        hand[index].cost <= erg[attribute_slot(hand[index].kind)],
        erg_paid(erg@, hand[index].kind, hand[index].cost)[attribute_slot(hand[index].kind)]
            == erg[attribute_slot(hand[index].kind)] - hand[index].cost,
{
}

/// A second click on the node button that a first click chose takes the
/// choice back.
pub proof fn law_node_click_toggles(
    intent: Option<MissionNodeIntent>,
    entity: Option<u64>,
    target: u64,
    button: MissionNodeIntent,
)
    requires
        entity != Some(target),
    ensures
        node_action_after(intent, entity, target, Some(button)) == (Some(button), Some(target)),
        ({
            let first = node_action_after(intent, entity, target, Some(button));
            node_action_after(first.0, first.1, target, Some(button)) == (
                None::<MissionNodeIntent>,
                None::<u64>,
            )
        }),
{
}

/// A terminal never holds more than `TTY_MESSAGE_COUNT` lines, and the newest
/// line comes first.
pub proof fn law_tty_bounded(queue: Seq<String>, new_queue: Seq<String>, line: Seq<char>)
    requires
        queue.len() <= TTY_MESSAGE_COUNT,
        tty_pushed(queue, new_queue, line),
    ensures
        new_queue.len() <= TTY_MESSAGE_COUNT,
        new_queue.len() >= 1,
        new_queue[0]@ == line,
{
}

fn push_line(queue: &mut VecDeque<String>, line: String)
    ensures
        tty_pushed(old(queue)@, final(queue)@, line@),
{
    let ghost q0 = queue@;
    queue.push_front(line);
    if queue.len() > TTY_MESSAGE_COUNT {
        queue.pop_back();
    }
    proof {
        assert forall|i: int| 1 <= i < queue@.len() implies queue@[i] == #[trigger] q0[i - 1] by {
            assert((seq![line] + q0)[i] == q0[i - 1]);
        }
    }
}

} // verus!
