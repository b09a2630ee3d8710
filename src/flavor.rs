use vstd::prelude::*;

use crate::controls::CharacterMovement;

verus! {

/// What the looping movement sound is doing.
#[derive(Clone, Copy, Debug, PartialEq, Eq, Hash, Structural)]
pub enum PlaybackState {
    Paused,
    Playing,
    /// Queued, stopping, stopped, or any other state the sound may be in.
    Other,
}

/// What to do with the movement sound this tick.
#[derive(Clone, Copy, Debug, PartialEq, Eq, Hash, Structural)]
pub enum SoundCommand {
    Resume,
    Pause,
    Keep,
}

/// Whether some intent is non-zero.
pub open spec fn any_moving(movements: Seq<CharacterMovement>) -> bool {
    exists|i: int| 0 <= i < movements.len() && !(#[trigger] movements[i]).is_zero()
}

/// The sound's command: a paused sound resumes when some character intends to
/// move; a playing one pauses when none does; otherwise it is left alone.
pub open spec fn flying_sound_command(state: PlaybackState, movements: Seq<CharacterMovement>) -> SoundCommand {
    match state {
        PlaybackState::Paused => if any_moving(movements) {
            SoundCommand::Resume
        } else {
            SoundCommand::Keep
        },
        PlaybackState::Playing => if !any_moving(movements) {
            SoundCommand::Pause
        } else {
            SoundCommand::Keep
        },
        PlaybackState::Other => SoundCommand::Keep,
    }
}

fn some_moving(movements: &Vec<CharacterMovement>) -> (r: bool)
    ensures
        r == any_moving(movements@),
{
    let mut i: usize = 0;
    while i < movements.len()
        invariant
            0 <= i <= movements.len(),
            forall|j: int| 0 <= j < i ==> (#[trigger] movements@[j]).is_zero(),
        decreases movements.len() - i,
    {
        let m = movements[i];
        if !(m.x == 0 && m.y == 0) {
            return true;
        }
        i = i + 1;
    }
    false
}

/// Gates the movement sound on the characters' intents.
pub fn control_flying_sound(state: PlaybackState, movements: &Vec<CharacterMovement>) -> (r: SoundCommand)
    ensures
        r == flying_sound_command(state, movements@),
{
    match state {
        PlaybackState::Paused => if some_moving(movements) {
            SoundCommand::Resume
        } else {
            SoundCommand::Keep
        },
        PlaybackState::Playing => if !some_moving(movements) {
            SoundCommand::Pause
        } else {
            SoundCommand::Keep
        },
        PlaybackState::Other => SoundCommand::Keep,
    }
}

} // verus!
