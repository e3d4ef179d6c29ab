//! Cards: what a card looks like on screen, where it may be launched, and how a deck is ordered.
use vstd::prelude::*;

use crate::data::{attribute_letter, attribute_letter_spec, ActorIndexType, AttributeKind, CardTargetMachineKind, CardTargetValue, DelayType, ErgType, LaunchInstruction, PickedCardTarget};
use crate::text::{decimal, push_char, push_decimal};

verus! {

broadcast use {vstd::seq_lib::group_to_multiset_ensures, vstd::seq_lib::to_multiset_remove, vstd::seq_lib::to_multiset_insert};

/// A card as the screens show and play it; `id` is its position in the list
/// it was read from, by which the screen finds the full card again.
pub struct VagabondCard {
    pub id: usize,
    pub title: String,
    pub kind: AttributeKind,
    pub cost: ErgType,
    pub delay: DelayType,
    pub priority: u8,
    pub rarity: u8,
    pub set: u8,
    pub number: u8,
    pub launch_rules: Vec<LaunchInstruction>,
}

/// Whether one launch instruction allows the card to be dropped on `target`.
pub open spec fn instruction_allows(instruction: LaunchInstruction, target: PickedCardTarget) -> bool {
    match instruction {
        LaunchInstruction::Targ(CardTargetValue::Nothing) => false,
        LaunchInstruction::Targ(CardTargetValue::Machine(CardTargetMachineKind::Any)) => (
        target is MachineLocal || target is MachineRemote),
        LaunchInstruction::Targ(CardTargetValue::Machine(CardTargetMachineKind::Local)) => (
        target is MachineLocal),
        LaunchInstruction::Targ(CardTargetValue::Machine(CardTargetMachineKind::Remote)) => (
        target is MachineRemote),
        LaunchInstruction::Targ(CardTargetValue::Actor) => target is Actor,
        LaunchInstruction::Other => false,
    }
}

/// Whether some launch instruction of `rules` allows `target`.
pub open spec fn rules_allow(rules: Seq<LaunchInstruction>, target: PickedCardTarget) -> bool {
    exists|i: int| 0 <= i < rules.len() && #[trigger] instruction_allows(rules[i], target)
}

fn instruction_allows_exec(instruction: LaunchInstruction, target: PickedCardTarget) -> (r: bool)
    ensures
        r == instruction_allows(instruction, target),
{
    match instruction {
        LaunchInstruction::Targ(targ) => match targ {
            CardTargetValue::Nothing => false,
            CardTargetValue::Machine(machine) => match machine {
                CardTargetMachineKind::Any => match target {
                    PickedCardTarget::MachineLocal => true,
                    PickedCardTarget::MachineRemote => true,
                    PickedCardTarget::Actor(_) => false,
                },
                CardTargetMachineKind::Local => match target {
                    PickedCardTarget::MachineLocal => true,
                    _ => false,
                },
                CardTargetMachineKind::Remote => match target {
                    PickedCardTarget::MachineRemote => true,
                    _ => false,
                },
            },
            CardTargetValue::Actor => match target {
                PickedCardTarget::Actor(_) => true,
                _ => false,
            },
        },
        LaunchInstruction::Other => false,
    }
}

/// Whether `card` may be dropped on `target`: one of its launch rules targets
/// that kind of place.
pub fn valid_target(card: &VagabondCard, target: PickedCardTarget) -> (valid: bool)
    ensures
        valid == rules_allow(card.launch_rules@, target),
        target is Actor ==> (valid <==> exists|j: int|
            0 <= j < card.launch_rules@.len() && card.launch_rules@[j] == LaunchInstruction::Targ(
                CardTargetValue::Actor,
            )),
        target is MachineRemote ==> (valid <==> exists|j: int|
            0 <= j < card.launch_rules@.len() && (card.launch_rules@[j] == LaunchInstruction::Targ(
                CardTargetValue::Machine(CardTargetMachineKind::Remote),
            ) || card.launch_rules@[j] == LaunchInstruction::Targ(
                CardTargetValue::Machine(CardTargetMachineKind::Any),
            ))),
        target is MachineLocal ==> (valid <==> exists|j: int|
            0 <= j < card.launch_rules@.len() && (card.launch_rules@[j] == LaunchInstruction::Targ(
                CardTargetValue::Machine(CardTargetMachineKind::Local),
            ) || card.launch_rules@[j] == LaunchInstruction::Targ(
                CardTargetValue::Machine(CardTargetMachineKind::Any),
            ))),
{
    proof {
        match target {
            PickedCardTarget::Actor(i) => law_launch_targets(card.launch_rules@, i),
            _ => law_launch_targets(card.launch_rules@, 0),
        }
    }
    let n = card.launch_rules.len();
    let mut i: usize = 0;
    while i < n
        invariant
            n == card.launch_rules@.len(),
            i <= n,
            forall|j: int| 0 <= j < i ==> !#[trigger] instruction_allows(card.launch_rules@[j], target),
        decreases n - i,
    {
        if instruction_allows_exec(card.launch_rules[i], target) {
            return true;
        }
        i = i + 1;
    }
    false
}

/// Which launch rules let a card be dropped where: on an actor exactly when
/// some rule targets actors; on the remote machine exactly when some rule
/// targets the remote machine or any machine; on the local machine exactly
/// when some rule targets the local machine or any machine.
pub proof fn law_launch_targets(rules: Seq<LaunchInstruction>, actor: ActorIndexType)
    ensures
        rules_allow(rules, PickedCardTarget::Actor(actor)) <==> exists|j: int|
            0 <= j < rules.len() && rules[j] == LaunchInstruction::Targ(CardTargetValue::Actor),
        rules_allow(rules, PickedCardTarget::MachineRemote) <==> exists|j: int|
            0 <= j < rules.len() && (rules[j] == LaunchInstruction::Targ(
                CardTargetValue::Machine(CardTargetMachineKind::Remote),
            ) || rules[j] == LaunchInstruction::Targ(
                CardTargetValue::Machine(CardTargetMachineKind::Any),
            )),
        rules_allow(rules, PickedCardTarget::MachineLocal) <==> exists|j: int|
            0 <= j < rules.len() && (rules[j] == LaunchInstruction::Targ(
                CardTargetValue::Machine(CardTargetMachineKind::Local),
            ) || rules[j] == LaunchInstruction::Targ(
                CardTargetValue::Machine(CardTargetMachineKind::Any),
            )),
{
    if rules_allow(rules, PickedCardTarget::Actor(actor)) {
        let j = choose|j: int|
            0 <= j < rules.len() && #[trigger] instruction_allows(rules[j], PickedCardTarget::Actor(actor));
        assert(rules[j] == LaunchInstruction::Targ(CardTargetValue::Actor));
    }
    if rules_allow(rules, PickedCardTarget::MachineRemote) {
        let j = choose|j: int|
            0 <= j < rules.len() && #[trigger] instruction_allows(rules[j], PickedCardTarget::MachineRemote);
        assert(rules[j] == LaunchInstruction::Targ(CardTargetValue::Machine(CardTargetMachineKind::Remote))
            || rules[j] == LaunchInstruction::Targ(CardTargetValue::Machine(CardTargetMachineKind::Any)));
    }
    if rules_allow(rules, PickedCardTarget::MachineLocal) {
        let j = choose|j: int|
            0 <= j < rules.len() && #[trigger] instruction_allows(rules[j], PickedCardTarget::MachineLocal);
        assert(rules[j] == LaunchInstruction::Targ(CardTargetValue::Machine(CardTargetMachineKind::Local))
            || rules[j] == LaunchInstruction::Targ(CardTargetValue::Machine(CardTargetMachineKind::Any)));
    }
    if exists|j: int| 0 <= j < rules.len() && rules[j] == LaunchInstruction::Targ(CardTargetValue::Actor) {
        let j = choose|j: int| 0 <= j < rules.len() && rules[j] == LaunchInstruction::Targ(CardTargetValue::Actor);
        assert(instruction_allows(rules[j], PickedCardTarget::Actor(actor)));
    }
    if exists|j: int|
        0 <= j < rules.len() && (rules[j] == LaunchInstruction::Targ(
            CardTargetValue::Machine(CardTargetMachineKind::Remote),
        ) || rules[j] == LaunchInstruction::Targ(CardTargetValue::Machine(CardTargetMachineKind::Any))) {
        let j = choose|j: int|
            0 <= j < rules.len() && (rules[j] == LaunchInstruction::Targ(
                CardTargetValue::Machine(CardTargetMachineKind::Remote),
            ) || rules[j] == LaunchInstruction::Targ(CardTargetValue::Machine(CardTargetMachineKind::Any)));
        assert(instruction_allows(rules[j], PickedCardTarget::MachineRemote));
    }
    if exists|j: int|
        0 <= j < rules.len() && (rules[j] == LaunchInstruction::Targ(
            CardTargetValue::Machine(CardTargetMachineKind::Local),
        ) || rules[j] == LaunchInstruction::Targ(CardTargetValue::Machine(CardTargetMachineKind::Any))) {
        let j = choose|j: int|
            0 <= j < rules.len() && (rules[j] == LaunchInstruction::Targ(
                CardTargetValue::Machine(CardTargetMachineKind::Local),
            ) || rules[j] == LaunchInstruction::Targ(CardTargetValue::Machine(CardTargetMachineKind::Any)));
        assert(instruction_allows(rules[j], PickedCardTarget::MachineLocal));
    }
}

/// The cost label of a card: the cost in decimal followed by the attribute letter.
pub open spec fn cost_label_spec(kind: AttributeKind, cost: ErgType) -> Seq<char> {
    decimal(cost as nat).push(attribute_letter_spec(kind))
}

/// The cost label of a card, such as `"3B"`.
pub fn cost_label(kind: AttributeKind, cost: ErgType) -> (label: String)
    ensures
        label@ == cost_label_spec(kind, cost),
{
    let mut s = String::new();
    push_decimal(&mut s, cost as u64);
    push_char(&mut s, attribute_letter(kind));
    proof {
        assert(s@ =~= cost_label_spec(kind, cost));
    }
    s
}

/// The frame colour of a card of `kind`, as 8-bit red, green and blue.
pub open spec fn kind_rgb_spec(kind: AttributeKind) -> (u8, u8, u8) {
    match kind {
        AttributeKind::Analyze => (128, 0, 128),
        AttributeKind::Breach => (0, 128, 0),
        AttributeKind::Compute => (0, 0, 128),
        AttributeKind::Disrupt => (128, 128, 0),
    }
}

/// The frame colour of a card of `kind`, as 8-bit red, green and blue.
pub fn kind_rgb(kind: AttributeKind) -> (rgb: (u8, u8, u8))
    ensures
        rgb == kind_rgb_spec(kind),
{
    match kind {
        AttributeKind::Analyze => (128, 0, 128),
        AttributeKind::Breach => (0, 128, 0),
        AttributeKind::Compute => (0, 0, 128),
        AttributeKind::Disrupt => (128, 128, 0),
    }
}

/// Deck order: rarer cards first, then by set, then by number within the set.
pub open spec fn deck_le(a: VagabondCard, b: VagabondCard) -> bool {
    ||| a.rarity > b.rarity
    ||| a.rarity == b.rarity && a.set < b.set
    ||| a.rarity == b.rarity && a.set == b.set && a.number <= b.number
}

/// `cards` is in deck order.
pub open spec fn deck_sorted(cards: Seq<VagabondCard>) -> bool {
    forall|i: int, j: int| 0 <= i < j < cards.len() ==> deck_le(#[trigger] cards[i], #[trigger] cards[j])
}

fn deck_le_exec(a: &VagabondCard, b: &VagabondCard) -> (r: bool)
    ensures
        r == deck_le(*a, *b),
{
    a.rarity > b.rarity || (a.rarity == b.rarity && a.set < b.set) || (a.rarity == b.rarity
        && a.set == b.set && a.number <= b.number)
}

/// Two cards share their deck position key (rarity, set and number).
pub open spec fn same_deck_key(a: VagabondCard, b: VagabondCard) -> bool {
    a.rarity == b.rarity && a.set == b.set && a.number == b.number
}

/// `output` is `input` rearranged by `perm` (`output[k]` is `input[perm[k]]`),
/// and cards with the same key keep their relative order.
pub open spec fn stable_rearrangement(input: Seq<VagabondCard>, output: Seq<VagabondCard>, perm: Seq<int>) -> bool {
    &&& perm.len() == output.len()
    &&& output.len() == input.len()
    &&& forall|k: int| 0 <= k < perm.len() ==> 0 <= #[trigger] perm[k] < input.len()
    &&& forall|k: int| 0 <= k < perm.len() ==> output[k] == input[#[trigger] perm[k]]
    &&& forall|k: int, l: int| 0 <= k < l < perm.len() ==> #[trigger] perm[k] != #[trigger] perm[l]
    &&& forall|k: int, l: int|
        0 <= k < l < perm.len() && same_deck_key(#[trigger] output[k], #[trigger] output[l]) ==> perm[k]
            < perm[l]
}

/// Puts a deck in the order the deck gutter shows it: rarest first, then by
/// set, then by number. The result holds the same cards, and cards with the
/// same rarity, set and number keep the order they had.
pub fn sort_deck(deck: Vec<VagabondCard>) -> (sorted: Vec<VagabondCard>)
    ensures
        deck_sorted(sorted@),
        sorted@.to_multiset() == deck@.to_multiset(),
        exists|perm: Seq<int>| stable_rearrangement(deck@, sorted@, perm),
{
    let ghost input = deck@;
    let mut rest = deck;
    let mut out: Vec<VagabondCard> = Vec::new();
    let ghost mut perm: Seq<int> = Seq::empty();
    let ghost mut taken: int = 0;
    while rest.len() > 0
        invariant
            deck_sorted(out@),
            out@.to_multiset().add(rest@.to_multiset()) == input.to_multiset(),
            0 <= taken <= input.len(),
            rest@ == input.skip(taken),
            perm.len() == out@.len(),
            out@.len() == taken,
            forall|k: int| 0 <= k < perm.len() ==> 0 <= #[trigger] perm[k] < taken,
            forall|k: int| 0 <= k < perm.len() ==> out@[k] == input[#[trigger] perm[k]],
            forall|k: int, l: int| 0 <= k < l < perm.len() ==> #[trigger] perm[k] != #[trigger] perm[l],
            forall|k: int, l: int|
                0 <= k < l < perm.len() && same_deck_key(#[trigger] out@[k], #[trigger] out@[l])
                    ==> perm[k] < perm[l],
        decreases rest.len(),
    {
        let ghost rest0 = rest@;
        let card = rest.remove(0);
        proof {
            assert(rest0.remove(0).to_multiset() == rest0.to_multiset().remove(rest0[0]));
            assert(card == input[taken]);
            assert(rest@ =~= input.skip(taken + 1));
        }
        let mut pos: usize = 0;
        while pos < out.len() && deck_le_exec(&out[pos], &card)
            invariant
                pos <= out.len(),
                forall|j: int| 0 <= j < pos ==> deck_le(#[trigger] out@[j], card),
            decreases out.len() - pos,
        {
            pos = pos + 1;
        }
        let ghost out0 = out@;
        let ghost perm0 = perm;
        out.insert(pos, card);
        proof {
            perm = perm0.insert(pos as int, taken);
            assert(out0.insert(pos as int, card).to_multiset() == out0.to_multiset().insert(card));
            assert forall|i: int, j: int| 0 <= i < j < out@.len() implies deck_le(
                #[trigger] out@[i],
                #[trigger] out@[j],
            ) by {
                if j < pos {
                    assert(deck_le(out0[i], out0[j]));
                } else if j == pos {
                    assert(out@[i] == out0[i]);
                } else if i < pos {
                    assert(out@[j] == out0[j - 1]);
                    assert(deck_le(out0[i], card));
                    assert(deck_le(out0[pos as int], out0[j - 1]));
                    assert(!deck_le(out0[pos as int], card));
                } else if i == pos {
                    assert(out@[j] == out0[j - 1]);
                    assert(!deck_le(out0[pos as int], card));
                    assert(pos == j - 1 || deck_le(out0[pos as int], out0[j - 1]));
                } else {
                    assert(deck_le(out0[i - 1], out0[j - 1]));
                }
            }
            assert forall|k: int| 0 <= k < perm.len() implies 0 <= #[trigger] perm[k] < taken + 1 by {
                if k < pos {
                    assert(perm[k] == perm0[k]);
                } else if k > pos {
                    assert(perm[k] == perm0[k - 1]);
                }
            }
            assert forall|k: int| 0 <= k < perm.len() implies out@[k] == input[#[trigger] perm[k]] by {
                if k < pos {
                    assert(perm[k] == perm0[k]);
                } else if k > pos {
                    assert(perm[k] == perm0[k - 1]);
                }
            }
            assert forall|k: int, l: int| 0 <= k < l < perm.len() implies #[trigger] perm[k]
                != #[trigger] perm[l] by {
                if k < pos && l < pos {
                    assert(perm0[k] != perm0[l]);
                } else if k < pos && l > pos {
                    assert(perm0[k] != perm0[l - 1]);
                } else if k > pos && l > pos {
                    assert(perm0[k - 1] != perm0[l - 1]);
                } else if k == pos {
                    assert(perm[l] == perm0[l - 1]);
                } else {
                    assert(perm[k] == perm0[k]);
                }
            }
            assert forall|k: int, l: int|
                0 <= k < l < perm.len() && same_deck_key(
                    #[trigger] out@[k],
                    #[trigger] out@[l],
                ) implies perm[k] < perm[l] by {
                if k < pos && l < pos {
                    assert(same_deck_key(out0[k], out0[l]));
                } else if k < pos && l > pos {
                    assert(same_deck_key(out0[k], out0[l - 1]));
                } else if k > pos && l > pos {
                    assert(same_deck_key(out0[k - 1], out0[l - 1]));
                } else if k == pos {
                    // the new card is strictly before every card after it
                    assert(out@[l] == out0[l - 1]);
                    assert(!deck_le(out0[pos as int], card));
                    assert(pos == l - 1 || deck_le(out0[pos as int], out0[l - 1]));
                } else {
                    assert(perm[k] == perm0[k]);
                }
            }
            taken = taken + 1;
            assert(out@.to_multiset().add(rest@.to_multiset()) =~= input.to_multiset());
        }
    }
    proof {
        assert(taken == input.len());
        assert(stable_rearrangement(input, out@, perm));
    }
    out
}

} // verus!
