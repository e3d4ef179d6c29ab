use vagabond::card::{cost_label, kind_rgb, sort_deck, valid_target, VagabondCard};
use vagabond::data::{AttributeKind, CardTargetMachineKind, CardTargetValue, LaunchInstruction, PickedCardTarget};

fn card(title: &str, rarity: u8, set: u8, number: u8, rules: Vec<LaunchInstruction>) -> VagabondCard {
    VagabondCard {
        id: 0,
        title: title.to_string(),
        kind: AttributeKind::Breach,
        cost: 2,
        delay: 1,
        priority: 0,
        rarity,
        set,
        number,
        launch_rules: rules,
    }
}

#[test]
fn target_any_machine() {
    let c = card("a", 0, 0, 0, vec![LaunchInstruction::Targ(CardTargetValue::Machine(CardTargetMachineKind::Any))]);
    assert!(valid_target(&c, PickedCardTarget::MachineLocal));
    assert!(valid_target(&c, PickedCardTarget::MachineRemote));
    assert!(!valid_target(&c, PickedCardTarget::Actor(0)));
}

#[test]
fn target_local_remote_actor() {
    let local = card("l", 0, 0, 0, vec![LaunchInstruction::Targ(CardTargetValue::Machine(CardTargetMachineKind::Local))]);
    assert!(valid_target(&local, PickedCardTarget::MachineLocal));
    assert!(!valid_target(&local, PickedCardTarget::MachineRemote));
    let remote = card("r", 0, 0, 0, vec![LaunchInstruction::Targ(CardTargetValue::Machine(CardTargetMachineKind::Remote))]);
    assert!(!valid_target(&remote, PickedCardTarget::MachineLocal));
    assert!(valid_target(&remote, PickedCardTarget::MachineRemote));
    let actor = card("x", 0, 0, 0, vec![LaunchInstruction::Targ(CardTargetValue::Actor)]);
    assert!(valid_target(&actor, PickedCardTarget::Actor(3)));
    assert!(!valid_target(&actor, PickedCardTarget::MachineLocal));
}

#[test]
fn target_needs_a_targeting_rule() {
    let none = card("n", 0, 0, 0, vec![LaunchInstruction::Targ(CardTargetValue::Nothing), LaunchInstruction::Other]);
    assert!(!valid_target(&none, PickedCardTarget::MachineLocal));
    let empty = card("e", 0, 0, 0, vec![]);
    assert!(!valid_target(&empty, PickedCardTarget::MachineRemote));
    let later = card("m", 0, 0, 0, vec![LaunchInstruction::Other, LaunchInstruction::Targ(CardTargetValue::Actor)]);
    assert!(valid_target(&later, PickedCardTarget::Actor(1)));
}

#[test]
fn cost_labels() {
    assert_eq!(cost_label(AttributeKind::Breach, 3), "3B");
    assert_eq!(cost_label(AttributeKind::Analyze, 0), "0A");
    assert_eq!(cost_label(AttributeKind::Disrupt, 12), "12D");
    assert_eq!(cost_label(AttributeKind::Compute, 7), "7C");
}

#[test]
fn frame_colours() {
    assert_eq!(kind_rgb(AttributeKind::Analyze), (128, 0, 128));
    assert_eq!(kind_rgb(AttributeKind::Breach), (0, 128, 0));
    assert_eq!(kind_rgb(AttributeKind::Compute), (0, 0, 128));
    assert_eq!(kind_rgb(AttributeKind::Disrupt), (128, 128, 0));
}

#[test]
fn deck_rarest_first_then_set_then_number() {
    let deck = vec![
        card("c1", 0, 1, 5, vec![]),
        card("r2", 2, 0, 9, vec![]),
        card("c0", 0, 1, 2, vec![]),
        card("u", 1, 3, 1, vec![]),
        card("r1", 2, 0, 4, vec![]),
        card("c2", 0, 0, 7, vec![]),
    ];
    let sorted = sort_deck(deck);
    let titles: Vec<&str> = sorted.iter().map(|c| c.title.as_str()).collect();
    assert_eq!(titles, vec!["r1", "r2", "u", "c2", "c0", "c1"]);
}

#[test]
fn deck_sort_keeps_every_card() {
    let sorted = sort_deck(vec![card("a", 1, 1, 1, vec![]), card("b", 1, 1, 1, vec![]), card("c", 0, 0, 0, vec![])]);
    assert_eq!(sorted.len(), 3);
    let mut titles: Vec<&str> = sorted.iter().map(|c| c.title.as_str()).collect();
    assert_eq!(titles[2], "c");
    titles.sort();
    assert_eq!(titles, vec!["a", "b", "c"]);
    assert!(sort_deck(vec![]).is_empty());
}

#[test]
fn deck_sort_keeps_order_of_equal_keys() {
    let mut first = card("first", 1, 2, 3, vec![]);
    first.id = 0;
    let mut second = card("second", 1, 2, 3, vec![]);
    second.id = 1;
    let mut rare = card("rare", 4, 0, 0, vec![]);
    rare.id = 2;
    let sorted = sort_deck(vec![first, second, rare]);
    let ids: Vec<usize> = sorted.iter().map(|c| c.id).collect();
    assert_eq!(ids, vec![2, 0, 1]);
}
