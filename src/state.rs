use vstd::prelude::*;

verus! {

/// Progress of the menu's own asset batch.
#[derive(Clone, Copy, Debug, Default, PartialEq, Eq, Hash, Structural)]
pub enum MenuLoadState {
    #[default]
    Loading,
    Active,
}

/// Progress of the gameplay asset batch.
#[derive(Clone, Copy, Debug, Default, PartialEq, Eq, Hash, Structural)]
pub enum AssetLoadState {
    #[default]
    Loading,
    Active,
}

/// The process-wide game mode.
#[derive(Clone, Copy, Debug, Default, PartialEq, Eq, Hash, Structural)]
pub enum GameState {
    #[default]
    Loading,
    Playing,
    Menu,
}

/// The mode that the readiness check asks for, if any.
pub open spec fn menu_ready_target(menu: MenuLoadState, asset: AssetLoadState, game: GameState) -> Option<GameState> {
    if menu == MenuLoadState::Active && asset == AssetLoadState::Active && game == GameState::Loading {
        Some(GameState::Menu)
    } else {
        None
    }
}

/// Decides whether the game leaves `Loading` for `Menu`: only when both asset
/// batches are active and the game is still loading.
pub fn detect_menu_ready(menu: MenuLoadState, asset: AssetLoadState, game: GameState) -> (r: Option<GameState>)
    ensures
        r == menu_ready_target(menu, asset, game),
{
    match (menu, asset) {
        (MenuLoadState::Active, AssetLoadState::Active) => {
            if game == GameState::Loading {
                Some(GameState::Menu)
            } else {
                None
            }
        },
        _ => None,
    }
}

/// The mode after one evaluation of the readiness check.
pub open spec fn mode_after(menu: MenuLoadState, asset: AssetLoadState, game: GameState) -> GameState {
    match menu_ready_target(menu, asset, game) {
        Some(next) => next,
        None => game,
    }
}

/// The game-mode state machine: the current mode and the two loading signals
/// that it observes.
#[derive(Clone, Copy, Debug, PartialEq, Eq, Structural)]
pub struct GameFlow {
    pub mode: GameState,
    pub menu_load: MenuLoadState,
    pub asset_load: AssetLoadState,
}

impl GameFlow {
    /// A machine in `Loading`, with both asset batches still loading.
    pub fn new() -> (r: GameFlow)
        ensures
            r.mode == GameState::Loading,
            r.menu_load == MenuLoadState::Loading,
            r.asset_load == AssetLoadState::Loading,
    {
        GameFlow { mode: GameState::Loading, menu_load: MenuLoadState::Loading, asset_load: AssetLoadState::Loading }
    }

    /// The single transition entry point: applies the readiness check to the
    /// current signals.
    pub fn evaluate(&mut self)
        ensures
            final(self).menu_load == old(self).menu_load,
            final(self).asset_load == old(self).asset_load,
            final(self).mode == mode_after(old(self).menu_load, old(self).asset_load, old(self).mode),
    {
        if let Some(next) = detect_menu_ready(self.menu_load, self.asset_load, self.mode) {
            self.mode = next;
        }
    }

    /// Records the menu batch's signal; the readiness check runs only when it changed.
    pub fn set_menu_load(&mut self, s: MenuLoadState)
        ensures
            final(self).menu_load == s,
            final(self).asset_load == old(self).asset_load,
            final(self).mode == if s != old(self).menu_load {
                mode_after(s, old(self).asset_load, old(self).mode)
            } else {
                old(self).mode
            },
    {
        if s != self.menu_load {
            self.menu_load = s;
            self.evaluate();
        }
    }

    /// Records the gameplay batch's signal; the readiness check runs only when it changed.
    pub fn set_asset_load(&mut self, s: AssetLoadState)
        ensures
            final(self).asset_load == s,
            final(self).menu_load == old(self).menu_load,
            final(self).mode == if s != old(self).asset_load {
                mode_after(old(self).menu_load, s, old(self).mode)
            } else {
                old(self).mode
            },
    {
        if s != self.asset_load {
            self.asset_load = s;
            self.evaluate();
        }
    }

    /// The player confirms the menu: `Menu` moves on to `Playing`, any other
    /// mode stays as it is.
    pub fn press_play(&mut self)
        ensures
            final(self).menu_load == old(self).menu_load,
            final(self).asset_load == old(self).asset_load,
            final(self).mode == if old(self).mode == GameState::Menu {
                GameState::Playing
            } else {
                old(self).mode
            },
    {
        if self.mode == GameState::Menu {
            self.mode = GameState::Playing;
        }
    }
}

/// Whether both batches are active in a pair of signals.
pub open spec fn both_active(signals: (MenuLoadState, AssetLoadState)) -> bool {
    signals.0 == MenuLoadState::Active && signals.1 == AssetLoadState::Active
}

/// The mode after evaluating the readiness check on each pair of signals in turn.
pub open spec fn run_signals(start: GameState, signals: Seq<(MenuLoadState, AssetLoadState)>) -> GameState
    decreases signals.len(),
{
    if signals.len() == 0 {
        start
    } else {
        let prev = run_signals(start, signals.drop_last());
        mode_after(signals.last().0, signals.last().1, prev)
    }
}

/// Starting in `Loading`, the mode stays `Loading` as long as no evaluated pair
/// of signals has both batches active; from the first pair that has both, it is
/// `Menu`, and no later pair, whatever it holds, takes it back to `Loading`.
pub proof fn lemma_menu_reached_once(signals: Seq<(MenuLoadState, AssetLoadState)>)
    ensures
        run_signals(GameState::Loading, signals) == if exists|i: int| 0 <= i < signals.len() && #[trigger] both_active(signals[i]) {
            GameState::Menu
        } else {
            GameState::Loading
        },
    decreases signals.len(),
{
    if signals.len() > 0 {
        let init = signals.drop_last();
        lemma_menu_reached_once(init);
        if exists|i: int| 0 <= i < init.len() && #[trigger] both_active(init[i]) {
            let i = choose|i: int| 0 <= i < init.len() && #[trigger] both_active(init[i]);
            assert(both_active(signals[i]));
        } else if both_active(signals.last()) {
            assert(both_active(signals[signals.len() - 1]));
        } else {
            assert forall|i: int| 0 <= i < signals.len() implies !#[trigger] both_active(signals[i]) by {
                if i < init.len() {
                    assert(init[i] == signals[i]);
                }
            }
        }
    }
}

/// Once the mode has left `Loading`, no evaluation of the readiness check
/// changes it.
pub proof fn lemma_no_revert(menu: MenuLoadState, asset: AssetLoadState, game: GameState)
    requires
        game != GameState::Loading,
    ensures
        mode_after(menu, asset, game) == game,
{
}

} // verus!
