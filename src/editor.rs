use vstd::prelude::*;

verus! {

/// How the editor window opens.
#[derive(Clone, Copy, Debug, PartialEq, Eq, Hash, Structural)]
pub enum EditorOpenSetting {
    Windowed,
    FullScreen,
}

/// The editor's command-line options.
#[derive(Clone, Copy, Debug, Default, PartialEq, Eq, Structural)]
pub struct Arguments {
    pub fullscreen: bool,
}

impl Arguments {
    /// Full screen when asked for, a window otherwise.
    pub fn open_setting(&self) -> (r: EditorOpenSetting)
        ensures
            r == if self.fullscreen {
                EditorOpenSetting::FullScreen
            } else {
                EditorOpenSetting::Windowed
            },
    {
        match self.fullscreen {
            true => EditorOpenSetting::FullScreen,
            false => EditorOpenSetting::Windowed,
        }
    }
}

/// What the editor does when Escape is pressed.
#[derive(Clone, Copy, Debug, PartialEq, Eq, Structural)]
pub enum PauseAction {
    /// Show the pause overlay and stop the fixed timestep.
    Pause,
    /// Remove the overlay entity and restore the saved fixed timestep.
    Resume { timestep_nanos: u128, ui_entity: u64 },
}

/// The editor's pause toggle: while paused, the fixed timestep from before the
/// pause (in nanoseconds) and the overlay entity that shows the pause.
#[derive(Clone, Copy, Debug, Default)]
pub struct PauseToggle {
    pub saved: Option<(u128, u64)>,
}

impl PauseToggle {
    /// Escape was pressed: a paused editor resumes with what it saved and
    /// forgets it; a running one asks to pause.
    pub fn escape_pressed(&mut self) -> (r: PauseAction)
        ensures
            final(self).saved.is_none(),
            r == match old(self).saved {
                Some((t, e)) => PauseAction::Resume { timestep_nanos: t, ui_entity: e },
                None => PauseAction::Pause,
            },
    {
        match self.saved.take() {
            Some((t, e)) => PauseAction::Resume { timestep_nanos: t, ui_entity: e },
            None => PauseAction::Pause,
        }
    }

    /// Records a pause: the timestep it replaced and the overlay it shows.
    pub fn paused(&mut self, timestep_nanos: u128, ui_entity: u64)
        ensures
            final(self).saved == Some((timestep_nanos, ui_entity)),
    {
        self.saved = Some((timestep_nanos, ui_entity));
    }
}

} // verus!
