use bevy_game::controls::{
    follow_vector, movement_sum, sync_controllers, CharacterControl, CharacterMovement, Controller, ControllerBundle, KeyCode,
    Player, WorldPoint, FOLLOW_EPSILON,
};

fn mv(x: i64, y: i64) -> CharacterMovement {
    CharacterMovement { x, y }
}

fn synced(c: Controller) -> Player {
    let mut p = Player::new(c);
    p.sync_controller();
    p
}

#[test]
fn scheme_one_is_wasd() {
    let b = ControllerBundle::key_controller_one();
    assert_eq!(
        b.bindings(),
        &vec![
            (KeyCode::W, CharacterControl::Up),
            (KeyCode::A, CharacterControl::Left),
            (KeyCode::S, CharacterControl::Down),
            (KeyCode::D, CharacterControl::Right),
        ]
    );
}

#[test]
fn scheme_two_is_arrows() {
    let b = ControllerBundle::key_controller_two();
    assert_eq!(
        b.bindings(),
        &vec![
            (KeyCode::Up, CharacterControl::Up),
            (KeyCode::Left, CharacterControl::Left),
            (KeyCode::Down, CharacterControl::Down),
            (KeyCode::Right, CharacterControl::Right),
        ]
    );
}

#[test]
fn resync_attaches_selected_scheme() {
    let p = synced(Controller::One);
    assert_eq!(p.controls, Some(ControllerBundle::key_controller_one()));
    assert!(!p.controller_changed);
    let p = synced(Controller::Two);
    assert_eq!(p.controls, Some(ControllerBundle::key_controller_two()));
}

#[test]
fn switching_one_to_two_drops_scheme_one() {
    let mut p = synced(Controller::One);
    p.set_controller(Controller::Two);
    assert!(p.controller_changed);
    p.sync_controller();
    let b = p.controls.clone().unwrap();
    assert_eq!(b, ControllerBundle::key_controller_two());
    for k in [KeyCode::W, KeyCode::A, KeyCode::S, KeyCode::D] {
        assert!(b.bindings().iter().all(|(key, _)| *key != k));
    }
}

#[test]
fn resync_without_change_keeps_attachment() {
    let mut p = synced(Controller::One);
    p.controller = Controller::Two;
    p.sync_controller();
    assert_eq!(p.controls, Some(ControllerBundle::key_controller_one()));
}

#[test]
fn unit_vectors_of_actions() {
    assert_eq!(CharacterMovement::from(&CharacterControl::Up), mv(0, 1));
    assert_eq!(CharacterMovement::from(&CharacterControl::Down), mv(0, -1));
    assert_eq!(CharacterMovement::from(&CharacterControl::Left), mv(-1, 0));
    assert_eq!(CharacterMovement::from(&CharacterControl::Right), mv(1, 0));
}

#[test]
fn movement_sum_adds_unit_vectors() {
    assert_eq!(movement_sum(&vec![]), mv(0, 0));
    assert_eq!(movement_sum(&vec![CharacterControl::Up, CharacterControl::Right]), mv(1, 1));
    assert_eq!(movement_sum(&vec![CharacterControl::Left, CharacterControl::Left, CharacterControl::Down]), mv(-2, -1));
}

#[test]
fn up_and_right_give_one_one() {
    let mut p = synced(Controller::One);
    p.queue_inputs(&vec![KeyCode::W, KeyCode::D]);
    assert_eq!(p.movement, Some(mv(1, 1)));
    let mut p = synced(Controller::Two);
    p.queue_inputs(&vec![KeyCode::Up, KeyCode::Right]);
    assert_eq!(p.movement, Some(mv(1, 1)));
}

#[test]
fn every_key_combination_sums() {
    let keys = [KeyCode::W, KeyCode::A, KeyCode::S, KeyCode::D];
    for mask in 0u32..16 {
        let held: Vec<KeyCode> = (0..4).filter(|i| mask & (1 << i) != 0).map(|i| keys[i]).collect();
        let up = (mask & 1 != 0) as i64;
        let left = (mask & 2 != 0) as i64;
        let down = (mask & 4 != 0) as i64;
        let right = (mask & 8 != 0) as i64;
        let expected = mv(right - left, up - down);
        let mut p = synced(Controller::One);
        p.queue_inputs(&held);
        if expected == mv(0, 0) {
            assert_eq!(p.movement, None);
        } else {
            assert_eq!(p.movement, Some(expected));
        }
    }
}

#[test]
fn opposite_keys_write_nothing() {
    let mut p = synced(Controller::One);
    p.movement = Some(mv(0, 1));
    p.queue_inputs(&vec![KeyCode::A, KeyCode::D]);
    assert_eq!(p.movement, Some(mv(0, 1)));
}

#[test]
fn keys_of_other_scheme_are_ignored() {
    let mut p = synced(Controller::One);
    p.queue_inputs(&vec![KeyCode::Up, KeyCode::Left]);
    assert_eq!(p.movement, None);
    p.queue_inputs(&vec![KeyCode::W, KeyCode::W, KeyCode::Up]);
    assert_eq!(p.movement, Some(mv(0, 1)));
}

#[test]
fn no_bindings_no_intent() {
    let mut p = Player::new(Controller::One);
    p.queue_inputs(&vec![KeyCode::W]);
    assert_eq!(p.movement, None);
}

#[test]
fn pressed_actions_are_listed_once() {
    let b = ControllerBundle::key_controller_two();
    let held = vec![KeyCode::Down, KeyCode::Down, KeyCode::Right, KeyCode::W];
    assert_eq!(b.get_pressed(&held), vec![CharacterControl::Down, CharacterControl::Right]);
    assert!(b.pressed(&held, CharacterControl::Down));
    assert!(!b.pressed(&held, CharacterControl::Up));
}

#[test]
fn consume_hands_out_intent_and_clears_it() {
    let mut p = synced(Controller::One);
    p.movement = Some(mv(1, 1));
    assert_eq!(p.consume_action(), Some(mv(1, 1)));
    assert_eq!(p.movement, None);
}

#[test]
fn integration_displacement_of_one_one() {
    let mut p = synced(Controller::One);
    p.queue_inputs(&vec![KeyCode::W, KeyCode::D]);
    let dir = p.consume_action().unwrap();
    assert_eq!(p.movement, None);
    let (x, y) = (dir.x as f32, dir.y as f32);
    let len = (x * x + y * y).sqrt();
    let (dx, dy) = (x / len * 150.0 * 0.1, y / len * 150.0 * 0.1);
    assert!((dx - 10.6066).abs() < 1e-3 && (dy - 10.6066).abs() < 1e-3);
}

#[test]
fn zero_intent_moves_nothing() {
    let mut p = synced(Controller::One);
    p.movement = Some(mv(0, 0));
    assert_eq!(p.consume_action(), None);
    assert_eq!(p.movement, None);
}

#[test]
fn idle_tick_moves_nothing() {
    let mut p = synced(Controller::One);
    p.queue_inputs(&vec![KeyCode::D]);
    assert_eq!(p.consume_action(), Some(mv(1, 0)));
    p.queue_inputs(&vec![]);
    p.set_mobile_action(WorldPoint { x: 0, y: 0 }, Some(WorldPoint { x: 100, y: 0 }));
    assert_eq!(p.movement, None);
    assert_eq!(p.consume_action(), None);
}

#[test]
fn near_touch_leaves_intent() {
    assert_eq!(FOLLOW_EPSILON, 5);
    let mut p = synced(Controller::One);
    p.movement = Some(mv(0, 1));
    p.set_mobile_action(WorldPoint { x: 10, y: 10 }, Some(WorldPoint { x: 13, y: 14 }));
    assert_eq!(p.movement, Some(mv(0, 1)));
    p.set_mobile_action(WorldPoint { x: 10, y: 10 }, Some(WorldPoint { x: 10, y: 10 }));
    assert_eq!(p.movement, Some(mv(0, 1)));
}

#[test]
fn far_touch_sets_exact_vector() {
    let mut p = synced(Controller::One);
    p.movement = Some(mv(0, 1));
    p.set_mobile_action(WorldPoint { x: 10, y: 10 }, Some(WorldPoint { x: 13, y: 15 }));
    assert_eq!(p.movement, Some(mv(3, 5)));
    p.set_mobile_action(WorldPoint { x: 10, y: 10 }, Some(WorldPoint { x: 4, y: 10 }));
    assert_eq!(p.movement, Some(mv(-6, 0)));
}

#[test]
fn touch_overrides_keyboard_in_same_tick() {
    let mut p = synced(Controller::One);
    p.queue_inputs(&vec![KeyCode::W]);
    p.set_mobile_action(WorldPoint { x: 0, y: 0 }, Some(WorldPoint { x: 20, y: 0 }));
    assert_eq!(p.consume_action(), Some(mv(20, 0)));
}

#[test]
fn touch_without_intent_or_press_does_nothing() {
    let mut p = synced(Controller::One);
    p.set_mobile_action(WorldPoint { x: 0, y: 0 }, Some(WorldPoint { x: 50, y: 50 }));
    assert_eq!(p.movement, None);
    p.movement = Some(mv(1, 0));
    p.set_mobile_action(WorldPoint { x: 0, y: 0 }, None);
    assert_eq!(p.movement, Some(mv(1, 0)));
}

#[test]
fn follow_vector_at_extremes() {
    let far = follow_vector(WorldPoint { x: i32::MIN, y: i32::MIN }, WorldPoint { x: i32::MAX, y: i32::MAX });
    assert_eq!(far, Some(mv(u32::MAX as i64, u32::MAX as i64)));
    assert_eq!(follow_vector(WorldPoint { x: 0, y: 0 }, WorldPoint { x: 0, y: -5 }), None);
    assert_eq!(follow_vector(WorldPoint { x: 0, y: 0 }, WorldPoint { x: 0, y: -6 }), Some(mv(0, -6)));
}

#[test]
fn resync_system_over_all_characters() {
    let mut one_to_two = synced(Controller::One);
    one_to_two.set_controller(Controller::Two);
    let mut players = vec![Player::new(Controller::One), one_to_two, synced(Controller::Two), Player::new(Controller::Two)];
    players[2].movement = Some(mv(1, 0));
    sync_controllers(&mut players);
    assert_eq!(players.len(), 4);
    assert_eq!(players[0].controls, Some(ControllerBundle::key_controller_one()));
    assert_eq!(players[1].controls, Some(ControllerBundle::key_controller_two()));
    assert_eq!(players[2].controls, Some(ControllerBundle::key_controller_two()));
    assert_eq!(players[2].movement, Some(mv(1, 0)));
    assert_eq!(players[3].controls, Some(ControllerBundle::key_controller_two()));
    assert!(players.iter().all(|p| !p.controller_changed));
}

#[test]
fn tick_runs_pipeline_in_order() {
    let mut p = Player::new(Controller::Two);
    let at = WorldPoint { x: 0, y: 0 };
    assert_eq!(p.tick(&vec![KeyCode::Left, KeyCode::Down], at, None), Some(mv(-1, -1)));
    assert_eq!(p.controls, Some(ControllerBundle::key_controller_two()));
    assert_eq!(p.movement, None);
    assert_eq!(p.tick(&vec![KeyCode::Up], at, Some(WorldPoint { x: -7, y: 1 })), Some(mv(-7, 1)));
    assert_eq!(p.tick(&vec![], at, Some(WorldPoint { x: -7, y: 1 })), None);
    assert_eq!(p.tick(&vec![KeyCode::W], at, None), None);
}
