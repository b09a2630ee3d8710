use vstd::prelude::*;

use crate::controls::CharacterMovement;

verus! {

/// Marks an entity as a player-controllable character.
#[derive(Clone, Copy, Debug, PartialEq, Eq, Structural)]
pub struct Character;

/// The template a character is spawned from: the marker, its name, and a zero
/// movement intent.
#[derive(Clone, Debug, PartialEq, Eq)]
pub struct CharacterBundle {
    pub character: Character,
    pub name: String,
    pub movement: CharacterMovement,
}

impl Default for CharacterBundle {
    fn default() -> (r: CharacterBundle)
        ensures
            r.name@ == "Character"@,
            r.movement.is_zero(),
    {
        proof {
            reveal_strlit("Character");
        }
        CharacterBundle {
            character: Character,
            name: String::from_str("Character"),
            movement: CharacterMovement { x: 0, y: 0 },
        }
    }
}

impl Character {
    /// A fresh character template.
    pub fn bundle() -> (r: CharacterBundle)
        ensures
            r.name@ == "Character"@,
            r.movement.is_zero(),
    {
        CharacterBundle::default()
    }
}

} // verus!
