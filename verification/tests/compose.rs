use vagabond::card::VagabondCard;
use vagabond::compose::{
    drop_glow, holder_visible, part_value_text, slot_part_index, ComposeBoard, ComposeContext, ComposeState, DropGlow,
    FinishOutcome, Slot, StatRowKind, VagabondPart,
};
use vagabond::data::AttributeKind;

fn part(id: usize, seed: u64) -> VagabondPart {
    VagabondPart { id, seed, values: [id as u8, 1, 2, 3] }
}

fn slots() -> Vec<Slot> {
    vec![
        Slot::StatRow(StatRowKind::Analyze),
        Slot::StatRow(StatRowKind::Breach),
        Slot::StatRow(StatRowKind::Compute),
        Slot::StatRow(StatRowKind::Disrupt),
        Slot::Build,
        Slot::StatRow(StatRowKind::Build),
        Slot::Detail,
        Slot::StatRow(StatRowKind::Detail),
    ]
}

fn parts_on(board: &ComposeBoard) -> Vec<u64> {
    let mut seeds: Vec<u64> = board.holders.iter().flatten().map(|p| p.seed).collect();
    seeds.sort();
    seeds
}

#[test]
fn build_positions_of_slots() {
    let expected = [0, 1, 2, 3, 4, 5, 6, 7];
    for (slot, index) in slots().into_iter().zip(expected) {
        assert_eq!(slot_part_index(slot), Some(index));
    }
    assert_eq!(slot_part_index(Slot::Card), None);
    assert_eq!(slot_part_index(Slot::Empty(3)), None);
}

#[test]
fn drag_and_drop_moves_a_part_to_a_row() {
    let mut board = ComposeBoard::new();
    let card = board.add_holder(Slot::Card, Some(part(0, 11)));
    let place = board.add_holder(Slot::Empty(card), None);
    let row = board.add_holder(Slot::StatRow(StatRowKind::Analyze), None);
    assert_eq!(place, 2);
    board.drag_start(card);
    assert!(board.active);
    assert!(board.holders[card].is_none());
    assert_eq!(board.holders[0].map(|p| p.seed), Some(11));
    assert!(board.drop_part(card, row));
    assert_eq!(board.holders[row].map(|p| p.seed), Some(11));
    assert!(board.holders[0].is_none());
    board.drag_end(card);
    assert!(!board.active);
    assert_eq!(board.holders[row].map(|p| p.seed), Some(11));
    assert!(board.holders[card].is_none());
    assert_eq!(parts_on(&board), vec![11]);
}

#[test]
fn drop_swaps_with_a_full_row() {
    let mut board = ComposeBoard::new();
    let a = board.add_holder(Slot::StatRow(StatRowKind::Analyze), Some(part(0, 1)));
    let b = board.add_holder(Slot::StatRow(StatRowKind::Breach), Some(part(1, 2)));
    board.drag_start(a);
    board.drop_part(a, b);
    board.drag_end(a);
    assert_eq!(board.holders[a].map(|p| p.seed), Some(2));
    assert_eq!(board.holders[b].map(|p| p.seed), Some(1));
    assert_eq!(parts_on(&board), vec![1, 2]);
}

#[test]
fn undropped_part_goes_back() {
    let mut board = ComposeBoard::new();
    let a = board.add_holder(Slot::StatRow(StatRowKind::Analyze), Some(part(0, 5)));
    board.drag_start(a);
    board.drag_end(a);
    assert_eq!(board.holders[a].map(|p| p.seed), Some(5));
    assert!(board.holders[0].is_none());
    assert!(!board.active);
}

#[test]
fn dropping_on_a_card_place_returns_the_part_to_its_card() {
    let mut board = ComposeBoard::new();
    let card = board.add_holder(Slot::Card, Some(part(0, 8)));
    let place = board.add_holder(Slot::Empty(card), None);
    let row = board.add_holder(Slot::Build, None);
    board.drag_start(card);
    board.drop_part(card, row);
    board.drag_end(card);
    board.drag_start(row);
    assert!(board.drop_part(row, place));
    assert_eq!(board.holders[card].map(|p| p.seed), Some(8));
    assert!(board.holders[place].is_none());
    board.drag_end(row);
    assert!(board.holders[row].is_none());
    assert_eq!(parts_on(&board), vec![8]);
}

#[test]
fn drag_from_an_empty_holder_does_nothing() {
    let mut board = ComposeBoard::new();
    let row = board.add_holder(Slot::Detail, None);
    board.drag_start(row);
    assert!(!board.active);
    assert!(!board.drop_part(row, row));
    board.drag_end(row);
    assert!(board.holders.iter().all(|h| h.is_none()));
}

#[test]
fn drop_on_itself_leaves_the_part_with_the_drag() {
    let mut board = ComposeBoard::new();
    let a = board.add_holder(Slot::Detail, Some(part(0, 3)));
    board.drag_start(a);
    assert!(board.drop_part(a, a));
    assert_eq!(board.holders[0].map(|p| p.seed), Some(3));
    board.drag_end(a);
    assert_eq!(board.holders[a].map(|p| p.seed), Some(3));
}

#[test]
fn finishing_an_incomplete_build_hides_the_player() {
    let mut board = ComposeBoard::new();
    for (i, slot) in slots().into_iter().enumerate() {
        let p = if i == 6 { None } else { Some(part(i, 10 + i as u64)) };
        board.add_holder(slot, p);
    }
    let mut ctx = ComposeContext::new();
    ctx.state = ComposeState::Ready;
    let outcome = ctx.finish_player(&board);
    assert!(matches!(outcome, FinishOutcome::Hide));
    assert_eq!(ctx.state, ComposeState::Build);
    assert_eq!(ctx.attributes[0], [0, 1, 2, 3]);
    assert_eq!(ctx.attributes[3], [3, 1, 2, 3]);
}

#[test]
fn finishing_a_complete_build_submits_it() {
    let mut board = ComposeBoard::new();
    for (i, slot) in slots().into_iter().enumerate() {
        board.add_holder(slot, Some(part(i, 100 + i as u64)));
    }
    board.add_holder(Slot::Card, None);
    let mut ctx = ComposeContext::new();
    match ctx.finish_player(&board) {
        FinishOutcome::Submit { parts, commit } => {
            assert_eq!(parts, [100, 101, 102, 103, 104, 105, 106, 107]);
            assert!(!commit);
        }
        FinishOutcome::Hide => panic!("complete build hidden"),
    }
    assert_eq!(ctx.state, ComposeState::Ready);
    assert_eq!(ctx.attributes[1], [1, 1, 2, 3]);
    assert!(ctx.click_commit());
    assert_eq!(ctx.state, ComposeState::Committed);
    match ctx.finish_player(&board) {
        FinishOutcome::Submit { commit, .. } => assert!(commit),
        FinishOutcome::Hide => panic!("complete build hidden"),
    }
    assert_eq!(ctx.state, ComposeState::Committed);
    assert!(!ctx.click_commit());
}

#[test]
fn commit_needs_a_ready_build() {
    let mut ctx = ComposeContext::new();
    assert!(!ctx.click_commit());
    assert_eq!(ctx.state, ComposeState::Build);
}

#[test]
fn part_texts_and_glows() {
    assert_eq!(part_value_text(Some(part(7, 1)), 0), "7");
    assert_eq!(part_value_text(Some(part(7, 1)), 3), "3");
    assert_eq!(part_value_text(None, 2), "-");
    assert_eq!(drop_glow(Slot::Card, None), None);
    assert_eq!(drop_glow(Slot::Empty(1), None), Some(DropGlow::EmptyPlace));
    assert_eq!(drop_glow(Slot::Build, None), Some(DropGlow::Free));
    assert_eq!(drop_glow(Slot::Build, Some(part(0, 1))), Some(DropGlow::Taken));
    assert_eq!(holder_visible(Slot::Card, None), Some(false));
    assert_eq!(holder_visible(Slot::Card, Some(part(0, 1))), Some(true));
    assert_eq!(holder_visible(Slot::Detail, None), None);
}

#[test]
fn deck_is_kept_in_order() {
    let mk = |title: &str, rarity: u8| VagabondCard {
        id: 0,
        title: title.to_string(),
        kind: AttributeKind::Analyze,
        cost: 1,
        delay: 0,
        priority: 0,
        rarity,
        set: 0,
        number: 0,
        launch_rules: vec![],
    };
    let mut ctx = ComposeContext::new();
    ctx.set_deck(vec![mk("common", 0), mk("rare", 3)]);
    assert_eq!(ctx.deck[0].title, "rare");
    assert_eq!(ctx.deck[1].title, "common");
}
