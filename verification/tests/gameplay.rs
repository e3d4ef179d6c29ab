use vagabond::card::VagabondCard;
use vagabond::data::{
    AccessPointIntent, AttributeKind, CardTarget, CardTargetMachineKind, CardTargetValue, LaunchInstruction, MachineKind,
    MissionNodeIntent, PickedCardTarget,
};
use vagabond::gameplay::{AttrRows, CardDragStart, GameplayContext, TTY_MESSAGE_COUNT};
use vagabond::phase::{GateEvent, NextRequest, VagabondGamePhase, WaitKind};

fn card(kind: AttributeKind, cost: u32, target: CardTargetValue) -> VagabondCard {
    VagabondCard {
        id: 0,
        title: "probe".to_string(),
        kind,
        cost,
        delay: 2,
        priority: 1,
        rarity: 0,
        set: 0,
        number: 0,
        launch_rules: vec![LaunchInstruction::Targ(target)],
    }
}

fn playing() -> GameplayContext {
    let mut ctx = GameplayContext::new("player-1".to_string());
    ctx.phase = VagabondGamePhase::Play;
    ctx.erg = [3, 5, 0, 1];
    ctx.hand = vec![
        card(AttributeKind::Breach, 2, CardTargetValue::Machine(CardTargetMachineKind::Remote)),
        card(AttributeKind::Compute, 1, CardTargetValue::Machine(CardTargetMachineKind::Any)),
        card(AttributeKind::Analyze, 1, CardTargetValue::Actor),
    ];
    ctx
}

#[test]
fn new_context_defaults() {
    let ctx = GameplayContext::new("p".to_string());
    assert_eq!(ctx.player_id, "p");
    assert_eq!(ctx.tick, 0);
    assert_eq!(ctx.phase, VagabondGamePhase::Start);
    assert!(ctx.attr_pick.is_none());
    assert!(ctx.card_picks.is_empty());
    assert!(ctx.node_action.intent.is_none());
    assert!(ctx.node_action.entity.is_none());
    assert_eq!(ctx.current_remote, 1);
    assert_eq!(ctx.erg, [0, 0, 0, 0]);
}

#[test]
fn reset_drops_picks() {
    let mut ctx = playing();
    ctx.attr_pick = Some(AttributeKind::Disrupt);
    ctx.add_card_pick(0, PickedCardTarget::MachineLocal);
    ctx.reset(12);
    assert_eq!(ctx.tick, 12);
    assert!(ctx.attr_pick.is_none());
    assert!(ctx.card_picks.is_empty());
    assert_eq!(ctx.phase, VagabondGamePhase::Play);
}

#[test]
fn card_picks_record_targets() {
    let mut ctx = playing();
    ctx.current_remote = 6;
    ctx.add_card_pick(0, PickedCardTarget::MachineLocal);
    ctx.add_card_pick(1, PickedCardTarget::MachineRemote);
    ctx.add_card_pick(2, PickedCardTarget::Actor(3));
    assert_eq!(ctx.card_picks.get(&0), Some(&CardTarget::Local));
    assert_eq!(ctx.card_picks.get(&1), Some(&CardTarget::Remote(6)));
    assert_eq!(ctx.card_picks.get(&2), Some(&CardTarget::Actor(3)));
    ctx.add_card_pick(1, PickedCardTarget::MachineLocal);
    assert_eq!(ctx.card_picks.get(&1), Some(&CardTarget::Local));
    assert_eq!(ctx.card_picks.len(), 3);
}

#[test]
fn drag_outside_play_is_ignored() {
    let mut ctx = playing();
    ctx.phase = VagabondGamePhase::Pick;
    assert_eq!(ctx.start_card_drag(0, false), CardDragStart::Ignored);
    assert_eq!(ctx.start_card_drag(0, true), CardDragStart::Ignored);
    assert_eq!(ctx.erg, [3, 5, 0, 1]);
}

#[test]
fn drag_needs_the_erg() {
    let mut ctx = playing();
    assert_eq!(ctx.start_card_drag(0, false), CardDragStart::Indicate);
    ctx.erg = [3, 1, 0, 1];
    assert_eq!(ctx.start_card_drag(0, false), CardDragStart::Blocked);
    assert_eq!(ctx.start_card_drag(1, false), CardDragStart::Blocked);
    assert_eq!(ctx.start_card_drag(7, false), CardDragStart::Blocked);
    assert_eq!(ctx.erg, [3, 1, 0, 1]);
}

#[test]
fn drop_pays_and_picks() {
    let mut ctx = playing();
    ctx.current_remote = 2;
    assert!(ctx.drop_card(0, PickedCardTarget::MachineRemote));
    assert_eq!(ctx.erg, [3, 3, 0, 1]);
    assert_eq!(ctx.card_picks.get(&0), Some(&CardTarget::Remote(2)));
}

#[test]
fn drop_on_a_wrong_target_changes_nothing() {
    let mut ctx = playing();
    assert!(!ctx.drop_card(0, PickedCardTarget::MachineLocal));
    assert!(!ctx.drop_card(2, PickedCardTarget::MachineRemote));
    assert!(!ctx.drop_card(9, PickedCardTarget::MachineRemote));
    assert_eq!(ctx.erg, [3, 5, 0, 1]);
    assert!(ctx.card_picks.is_empty());
    assert!(ctx.drop_card(2, PickedCardTarget::Actor(0)));
    assert_eq!(ctx.erg, [2, 5, 0, 1]);
}

#[test]
fn taking_a_card_back_undoes_its_pick() {
    let mut ctx = playing();
    assert!(ctx.drop_card(0, PickedCardTarget::MachineRemote));
    assert_eq!(ctx.erg, [3, 3, 0, 1]);
    assert_eq!(ctx.start_card_drag(0, true), CardDragStart::Unpicked);
    assert_eq!(ctx.erg, [3, 5, 0, 1]);
    assert!(ctx.card_picks.is_empty());
}

#[test]
fn unpicking_a_missing_card_only_drops_the_pick() {
    let mut ctx = playing();
    ctx.add_card_pick(4, PickedCardTarget::MachineLocal);
    assert_eq!(ctx.start_card_drag(4, true), CardDragStart::Unpicked);
    assert_eq!(ctx.erg, [3, 5, 0, 1]);
    assert!(ctx.card_picks.is_empty());
}

#[test]
fn choosing_attributes() {
    let mut ctx = playing();
    assert_eq!(ctx.choose_attr(Some(AttributeKind::Breach)), AttrRows::Unchanged);
    assert!(ctx.attr_pick.is_none());
    ctx.phase = VagabondGamePhase::Pick;
    assert_eq!(ctx.choose_attr(None), AttrRows::Prompt);
    assert!(ctx.attr_pick.is_none());
    assert_eq!(ctx.choose_attr(Some(AttributeKind::Compute)), AttrRows::Chosen(2));
    assert_eq!(ctx.attr_pick, Some(AttributeKind::Compute));
    assert_eq!(ctx.choose_attr(None), AttrRows::Prompt);
    assert_eq!(ctx.attr_pick, Some(AttributeKind::Compute));
}

#[test]
fn node_buttons_toggle() {
    let mut ctx = GameplayContext::new("p".to_string());
    let auth = Some(MissionNodeIntent::AccessPoint(AccessPointIntent::Authenticate));
    let first = ctx.click_node_button(10, auth);
    assert!(first.highlight);
    assert_eq!(first.restore, None);
    assert_eq!(ctx.node_action.entity, Some(10));
    assert_eq!(ctx.node_action.intent, auth);
    let second = ctx.click_node_button(10, auth);
    assert!(!second.highlight);
    assert_eq!(second.restore, Some(10));
    assert_eq!(ctx.node_action.entity, None);
    assert_eq!(ctx.node_action.intent, None);
}

#[test]
fn node_buttons_switch_and_ignore() {
    let mut ctx = GameplayContext::new("p".to_string());
    let next = Some(MissionNodeIntent::AccessPoint(AccessPointIntent::TransferNext));
    let prev = Some(MissionNodeIntent::AccessPoint(AccessPointIntent::TransferPrev));
    ctx.click_node_button(1, next);
    let click = ctx.click_node_button(2, prev);
    assert!(click.highlight);
    assert_eq!(click.restore, Some(1));
    assert_eq!(ctx.node_action.entity, Some(2));
    assert_eq!(ctx.node_action.intent, prev);
    let broken = ctx.click_node_button(3, None);
    assert!(!broken.highlight);
    assert_eq!(broken.restore, Some(2));
    assert_eq!(ctx.node_action.entity, Some(2));
    ctx.phase = VagabondGamePhase::Play;
    let late = ctx.click_node_button(5, next);
    assert!(!late.highlight);
    assert_eq!(late.restore, None);
    assert_eq!(ctx.node_action.entity, Some(2));
}

#[test]
fn next_button_flow() {
    let mut ctx = GameplayContext::new("p".to_string());
    assert_eq!(ctx.next_request(), NextRequest::ChooseIntent(None));
    ctx.next_sent(true);
    assert_eq!(ctx.phase, VagabondGamePhase::Wait(WaitKind::One));
    assert_eq!(ctx.next_request(), NextRequest::Nothing);
    ctx.next_sent(false);
    assert_eq!(ctx.phase, VagabondGamePhase::Wait(WaitKind::One));
}

#[test]
fn tick_starts_a_turn() {
    let mut ctx = playing();
    ctx.attr_pick = Some(AttributeKind::Analyze);
    ctx.add_card_pick(1, PickedCardTarget::MachineLocal);
    assert_eq!(ctx.apply_event(&GateEvent::Tick { tick: 9 }), Some(VagabondGamePhase::Start));
    assert_eq!(ctx.phase, VagabondGamePhase::Start);
    assert_eq!(ctx.tick, 9);
    assert!(ctx.attr_pick.is_none());
    assert!(ctx.card_picks.is_empty());
}

#[test]
fn events_without_phase_keep_it() {
    let mut ctx = playing();
    assert_eq!(ctx.apply_event(&GateEvent::EndTurn { success: false }), None);
    assert_eq!(ctx.phase, VagabondGamePhase::Play);
    assert_eq!(ctx.apply_event(&GateEvent::ResolveCards), Some(VagabondGamePhase::Draw));
    assert_eq!(ctx.phase, VagabondGamePhase::Draw);
    assert_eq!(ctx.tick, 0);
}

#[test]
fn terminal_lines_are_stamped_and_bounded() {
    let mut ctx = GameplayContext::new("p".to_string());
    ctx.tick = 7;
    ctx.push_tty(MachineKind::Local, "hello");
    assert_eq!(ctx.tty_text(MachineKind::Local, 0), "[007] hello");
    assert_eq!(ctx.tty_text(MachineKind::Local, 1), "");
    assert_eq!(ctx.tty_text(MachineKind::Remote, 0), "");
    for i in 0..12 {
        ctx.tick = i;
        ctx.push_tty(MachineKind::Remote, "x");
    }
    assert_eq!(ctx.tty_remote.len(), TTY_MESSAGE_COUNT);
    assert_eq!(ctx.tty_text(MachineKind::Remote, 0), "[011] x");
    assert_eq!(ctx.tty_text(MachineKind::Remote, 8), "[003] x");
    assert_eq!(ctx.tty_text(MachineKind::Remote, 9), "");
    assert_eq!(ctx.tty_local.len(), 1);
    ctx.tick = 1234;
    ctx.push_tty(MachineKind::Local, "late");
    assert_eq!(ctx.tty_text(MachineKind::Local, 0), "[1234] late");
    assert_eq!(ctx.tty_text(MachineKind::Local, 1), "[007] hello");
}
