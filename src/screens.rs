//! The menu, win and loading screens: button feedback, the buttons'
//! phase changes, and the loading text's dots.
use crate::level::same_text;
use crate::round::{GameState, LevelIndex, RoundController};
use vstd::prelude::*;

verus! {

/// The pointer's relation to a button.
#[derive(Clone, Copy, Debug, PartialEq, Eq, Structural)]
pub enum ButtonInteraction {
    Pressed,
    Hovered,
    Idle,
}

/// The two looks of a button.
#[derive(Clone, Copy, Debug, PartialEq, Eq, Structural)]
pub enum ButtonShade {
    Normal,
    Hovered,
}

/// The look that a button takes when its interaction changes: hovered when
/// hovered, normal when left; a press keeps the current look.
pub fn button_shade(interaction: ButtonInteraction) -> (r: Option<ButtonShade>)
    ensures
        r == match interaction {
            ButtonInteraction::Pressed => None,
            ButtonInteraction::Hovered => Some(ButtonShade::Hovered),
            ButtonInteraction::Idle => Some(ButtonShade::Normal),
        },
{
    match interaction {
        ButtonInteraction::Pressed => None,
        ButtonInteraction::Hovered => Some(ButtonShade::Hovered),
        ButtonInteraction::Idle => Some(ButtonShade::Normal),
    }
}

pub open spec fn any_pressed(s: Seq<ButtonInteraction>) -> bool {
    exists|i: int| 0 <= i < s.len() && #[trigger] s[i] == ButtonInteraction::Pressed
}

/// Whether any of the interaction changes is a press.
pub fn pressed(interactions: &Vec<ButtonInteraction>) -> (r: bool)
    ensures
        r == any_pressed(interactions@),
{
    let mut i: usize = 0;
    while i < interactions.len()
        invariant
            i <= interactions@.len(),
            forall|j: int| 0 <= j < i ==> #[trigger] interactions@[j] != ButtonInteraction::Pressed,
        decreases interactions.len() - i,
    {
        if interactions[i] == ButtonInteraction::Pressed {
            assert(interactions@[i as int] == ButtonInteraction::Pressed);
            return true;
        }
        i = i + 1;
    }
    false
}

/// The menu's play button: a press starts over from the first level.
pub fn play_button(interactions: &Vec<ButtonInteraction>, round: &mut RoundController) -> (r: Option<GameState>)
    requires
        old(round).wf(),
    ensures
        final(round).wf(),
        any_pressed(interactions@) ==> r == Some(GameState::LoadLevel) && *final(round) == (
        RoundController { level_index: LevelIndex(0), ..*old(round) }),
        !any_pressed(interactions@) ==> r is None && *final(round) == *old(round),
{
    if pressed(interactions) {
        Some(round.play())
    } else {
        None
    }
}

/// The win screen's button: a press returns to the menu.
pub fn go_to_menu(interactions: &Vec<ButtonInteraction>) -> (r: Option<GameState>)
    ensures
        r == if any_pressed(interactions@) {
            Some(GameState::Menu)
        } else {
            None
        },
{
    if pressed(interactions) {
        Some(GameState::Menu)
    } else {
        None
    }
}

/// The next frame of the loading text's dots: one, two, three, and back to
/// one; any other text stays as it is.
pub open spec fn next_dots(text: Seq<char>) -> Seq<char> {
    if text == "."@ {
        ".."@
    } else if text == ".."@ {
        "..."@
    } else if text == "..."@ {
        "."@
    } else {
        text
    }
}

/// Advances the loading text's dots; see `next_dots`.
pub fn animate_dots(text: &str) -> (r: String)
    ensures
        r@ == next_dots(text@),
{
    if same_text(text, ".") {
        "..".to_owned()
    } else if same_text(text, "..") {
        "...".to_owned()
    } else if same_text(text, "...") {
        ".".to_owned()
    } else {
        text.to_owned()
    }
}

} // verus!
