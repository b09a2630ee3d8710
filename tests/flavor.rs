use bevy_game::controls::CharacterMovement;
use bevy_game::editor::{Arguments, EditorOpenSetting, PauseAction, PauseToggle};
use bevy_game::menu::{button_look, handle_play_button_click, ButtonLook, Interaction};
use bevy_game::state::{AssetLoadState, GameFlow, GameState, MenuLoadState};
use bevy_game::flavor::{control_flying_sound, PlaybackState, SoundCommand};

fn mv(x: i64, y: i64) -> CharacterMovement {
    CharacterMovement { x, y }
}

#[test]
fn paused_sound_resumes_on_movement() {
    assert_eq!(control_flying_sound(PlaybackState::Paused, &vec![mv(0, 0), mv(0, 2)]), SoundCommand::Resume);
    assert_eq!(control_flying_sound(PlaybackState::Paused, &vec![mv(0, 0)]), SoundCommand::Keep);
    assert_eq!(control_flying_sound(PlaybackState::Paused, &vec![]), SoundCommand::Keep);
}

#[test]
fn playing_sound_pauses_when_still() {
    assert_eq!(control_flying_sound(PlaybackState::Playing, &vec![mv(0, 0), mv(0, 0)]), SoundCommand::Pause);
    assert_eq!(control_flying_sound(PlaybackState::Playing, &vec![]), SoundCommand::Pause);
    assert_eq!(control_flying_sound(PlaybackState::Playing, &vec![mv(-1, 0)]), SoundCommand::Keep);
}

#[test]
fn other_sound_states_are_left_alone() {
    assert_eq!(control_flying_sound(PlaybackState::Other, &vec![mv(1, 1)]), SoundCommand::Keep);
    assert_eq!(control_flying_sound(PlaybackState::Other, &vec![]), SoundCommand::Keep);
}

#[test]
fn editor_open_setting_follows_flag() {
    assert_eq!(Arguments { fullscreen: true }.open_setting(), EditorOpenSetting::FullScreen);
    assert_eq!(Arguments { fullscreen: false }.open_setting(), EditorOpenSetting::Windowed);
    assert_eq!(Arguments::default().open_setting(), EditorOpenSetting::Windowed);
}

#[test]
fn pause_toggle_round_trip() {
    let mut t = PauseToggle::default();
    assert_eq!(t.escape_pressed(), PauseAction::Pause);
    assert_eq!(t.saved, None);
    t.paused(16_666_667, 42);
    assert_eq!(t.saved, Some((16_666_667, 42)));
    assert_eq!(t.escape_pressed(), PauseAction::Resume { timestep_nanos: 16_666_667, ui_entity: 42 });
    assert_eq!(t.saved, None);
    assert_eq!(t.escape_pressed(), PauseAction::Pause);
}

#[test]
fn button_looks() {
    assert_eq!(button_look(Interaction::Pressed), ButtonLook::Active);
    assert_eq!(button_look(Interaction::Hovered), ButtonLook::Hovered);
    assert_eq!(button_look(Interaction::Idle), ButtonLook::Normal);
}

#[test]
fn play_button_starts_play_from_menu() {
    let mut f = GameFlow::new();
    handle_play_button_click(&mut f, Interaction::Pressed);
    assert_eq!(f.mode, GameState::Loading);
    f.set_menu_load(MenuLoadState::Active);
    f.set_asset_load(AssetLoadState::Active);
    handle_play_button_click(&mut f, Interaction::Hovered);
    assert_eq!(f.mode, GameState::Menu);
    handle_play_button_click(&mut f, Interaction::Pressed);
    assert_eq!(f.mode, GameState::Playing);
}
