use vagabond::data::AttributeKind;
use vagabond::phase::{VagabondGamePhase, WaitKind};
use vagabond::ui::{
    attr_row_color, next_button_color, node_button_hover, phase_icon_color, queue_position, queue_slot_color, roll_color,
    QueueEntry, UiColor,
};

#[test]
fn next_button_colours() {
    assert_eq!(next_button_color(VagabondGamePhase::Pick, Some(AttributeKind::Analyze)), UiColor::Green);
    assert_eq!(next_button_color(VagabondGamePhase::Pick, None), UiColor::Red);
    assert_eq!(next_button_color(VagabondGamePhase::Wait(WaitKind::One), None), UiColor::Red);
    assert_eq!(next_button_color(VagabondGamePhase::Wait(WaitKind::All), None), UiColor::Yellow);
    assert_eq!(next_button_color(VagabondGamePhase::Start, None), UiColor::Source);
    assert_eq!(next_button_color(VagabondGamePhase::Draw, Some(AttributeKind::Breach)), UiColor::Source);
}

#[test]
fn row_and_node_hover() {
    assert_eq!(attr_row_color(VagabondGamePhase::Pick), UiColor::Green);
    assert_eq!(attr_row_color(VagabondGamePhase::Play), UiColor::Source);
    assert!(node_button_hover(VagabondGamePhase::Start));
    assert!(!node_button_hover(VagabondGamePhase::Pick));
}

#[test]
fn phase_icons() {
    assert_eq!(phase_icon_color(VagabondGamePhase::Play, VagabondGamePhase::Play), UiColor::Chartreuse);
    assert_eq!(phase_icon_color(VagabondGamePhase::Play, VagabondGamePhase::Draw), UiColor::Dim);
    assert_eq!(phase_icon_color(VagabondGamePhase::Wait(WaitKind::One), VagabondGamePhase::Start), UiColor::Dim);
}

#[test]
fn roll_colours() {
    assert_eq!(roll_color(1, 3), UiColor::Red);
    assert_eq!(roll_color(3, 3), UiColor::Yellow);
    assert_eq!(roll_color(4, 3), UiColor::Green);
}

#[test]
fn queue_slots() {
    let queue = vec![
        QueueEntry { delay: 2, local: true },
        QueueEntry { delay: 5, local: false },
        QueueEntry { delay: 2, local: false },
    ];
    assert_eq!(queue_position(&queue, 2), Some(0));
    assert_eq!(queue_position(&queue, 5), Some(1));
    assert_eq!(queue_position(&queue, 9), None);
    assert_eq!(queue_slot_color(&queue, 2, true), UiColor::Green);
    assert_eq!(queue_slot_color(&queue, 2, false), UiColor::Red);
    assert_eq!(queue_slot_color(&queue, 5, false), UiColor::Green);
    assert_eq!(queue_slot_color(&queue, 5, true), UiColor::Red);
    assert_eq!(queue_slot_color(&queue, 0, true), UiColor::White);
    assert_eq!(queue_slot_color(&vec![], 0, true), UiColor::White);
}
