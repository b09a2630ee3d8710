use vstd::prelude::*;

use crate::state::{GameFlow, GameState};

verus! {

/// A button's pointer interaction.
#[derive(Clone, Copy, Debug, PartialEq, Eq, Hash, Structural)]
pub enum Interaction {
    Pressed,
    Hovered,
    Idle,
}

/// Which of a button's three colors it shows.
#[derive(Clone, Copy, Debug, PartialEq, Eq, Hash, Structural)]
pub enum ButtonLook {
    Normal,
    Hovered,
    Active,
}

/// A pressed button is active, a hovered one hovered, any other normal.
pub fn button_look(interaction: Interaction) -> (r: ButtonLook)
    ensures
        r == match interaction {
            Interaction::Pressed => ButtonLook::Active,
            Interaction::Hovered => ButtonLook::Hovered,
            Interaction::Idle => ButtonLook::Normal,
        },
{
    match interaction {
        Interaction::Pressed => ButtonLook::Active,
        Interaction::Hovered => ButtonLook::Hovered,
        Interaction::Idle => ButtonLook::Normal,
    }
}

/// The play button: pressing it in the menu starts play; hovering, or any
/// mode but the menu, changes nothing.
pub fn handle_play_button_click(flow: &mut GameFlow, interaction: Interaction)
    ensures
        final(flow).menu_load == old(flow).menu_load,
        final(flow).asset_load == old(flow).asset_load,
        final(flow).mode == if interaction == Interaction::Pressed && old(flow).mode == GameState::Menu {
            GameState::Playing
        } else {
            old(flow).mode
        },
{
    if interaction == Interaction::Pressed {
        flow.press_play();
    }
}

} // verus!
