use vstd::prelude::*;
use crate::game::node_type::NodeType;
use crate::game::resources::Game;
use crate::ui::interaction::Interaction;

verus! {

/// Precedence of the digit keys: `1` comes first, then `2` up to `9`, and
/// `0` last. A smaller rank wins.
pub open spec fn spec_digit_rank(digit: int) -> int {
    if digit == 0 {
        9
    } else {
        digit - 1
    }
}

/// `digit` is pressed, and no pressed digit takes precedence over it.
pub open spec fn spec_is_winning_digit(pressed: Seq<bool>, digit: int) -> bool {
    &&& 0 <= digit < 10
    &&& pressed[digit]
    &&& forall|other: int|
        0 <= other < 10 && pressed[other] ==> spec_digit_rank(digit) <= spec_digit_rank(other)
}

/// The node type that the digit keys select: `pressed[d]` says whether
/// digit `d` went down this frame. Digit `d` selects the node type at
/// index `d` of the hotbar, so `0` selects the eraser.
pub fn hotkey_selection(pressed: &[bool; 10]) -> (r: Option<NodeType>)
    ensures
        r.is_none() <==> forall|d: int| 0 <= d < 10 ==> !pressed@[d],
        r.is_some() ==> spec_is_winning_digit(pressed@, r.unwrap().spec_index()),
{
    let table = NodeType::all_types();
    let mut rank: usize = 0;
    while rank < 10
        invariant
            rank <= 10,
            table@.len() == 10,
            forall|i: int| 0 <= i < 10 ==> (#[trigger] table@[i]).0 == NodeType::spec_all()[i],
            forall|d: int| 0 <= d < 10 && spec_digit_rank(d) < rank ==> !pressed@[d],
        decreases 10 - rank,
    {
        let digit: usize = if rank == 9 { 0 } else { rank + 1 };
        if pressed[digit] {
            return Some(table[digit].0);
        }
        rank += 1;
    }
    None
}

/// Applies the digit keys to the hotbar: a pressed digit replaces the
/// selection, and without one the selection stays. The board is not
/// touched.
pub fn handle_hotkeys<E>(pressed: &[bool; 10], game: &mut Game<E>)
    ensures
        (forall|d: int| 0 <= d < 10 ==> !pressed@[d]) ==> final(game).hotbar_selection == old(
            game,
        ).hotbar_selection,
        (exists|d: int| 0 <= d < 10 && pressed@[d]) ==> spec_is_winning_digit(
            pressed@,
            final(game).hotbar_selection.spec_index(),
        ),
        final(game).board == old(game).board,
        final(game).board_size_x == old(game).board_size_x,
        final(game).board_size_z == old(game).board_size_z,
{
    match hotkey_selection(pressed) {
        Some(node_type) => {
            game.hotbar_selection = node_type;
        },
        None => {},
    }
}

/// The selection after a batch of hotbar buttons reported their state, in
/// order: each pressed button selects its node type, so the last pressed
/// one wins, and with none pressed `current` stays.
pub open spec fn spec_pressed_selection(
    buttons: Seq<(Interaction, NodeType)>,
    current: NodeType,
) -> NodeType
    decreases buttons.len(),
{
    if buttons.len() == 0 {
        current
    } else if buttons.last().0 == Interaction::Pressed {
        buttons.last().1
    } else {
        spec_pressed_selection(buttons.drop_last(), current)
    }
}

/// Applies the hotbar buttons to the selection. The board is not touched.
pub fn handle_ui_buttons<E>(buttons: &Vec<(Interaction, NodeType)>, game: &mut Game<E>)
    ensures
        final(game).hotbar_selection == spec_pressed_selection(
            buttons@,
            old(game).hotbar_selection,
        ),
        final(game).board == old(game).board,
        final(game).board_size_x == old(game).board_size_x,
        final(game).board_size_z == old(game).board_size_z,
{
    let mut selection = game.hotbar_selection;
    let mut i: usize = 0;
    while i < buttons.len()
        invariant
            i <= buttons@.len(),
            selection == spec_pressed_selection(buttons@.take(i as int), game.hotbar_selection),
        decreases buttons@.len() - i,
    {
        proof {
            let next = buttons@.take(i + 1);
            assert(next.drop_last() =~= buttons@.take(i as int));
        }
        if buttons[i].0 == Interaction::Pressed {
            selection = buttons[i].1;
        }
        i += 1;
    }
    assert(buttons@.take(buttons@.len() as int) =~= buttons@);
    game.hotbar_selection = selection;
}

/// The digit keys and the hotbar agree: the winning digit, if any, is
/// unique, so the selection that the keys make is determined by them.
pub proof fn lemma_winning_digit_unique(pressed: Seq<bool>, a: int, b: int)
    requires
        spec_is_winning_digit(pressed, a),
        spec_is_winning_digit(pressed, b),
    ensures
        a == b,
{
}

/// Every entry of the batch is something other than a press.
pub open spec fn spec_none_pressed(buttons: Seq<(Interaction, NodeType)>) -> bool {
    forall|i: int| 0 <= i < buttons.len() ==> (#[trigger] buttons[i]).0 != Interaction::Pressed
}

/// With no button pressed the selection stays; a pressed button at the
/// end of the batch always wins.
pub proof fn lemma_pressed_selection(buttons: Seq<(Interaction, NodeType)>, current: NodeType)
    ensures
        spec_none_pressed(buttons) ==> spec_pressed_selection(buttons, current) == current,
        buttons.len() > 0 && buttons.last().0 == Interaction::Pressed ==> spec_pressed_selection(
            buttons,
            current,
        ) == buttons.last().1,
    decreases buttons.len(),
{
    if buttons.len() > 0 && spec_none_pressed(buttons) {
        let head = buttons.drop_last();
        assert(spec_none_pressed(head)) by {
            assert forall|i: int| 0 <= i < head.len() implies (#[trigger] head[i]).0
                != Interaction::Pressed by {
                assert(head[i] == buttons[i]);
            }
        }
        lemma_pressed_selection(head, current);
    }
}

} // verus!
