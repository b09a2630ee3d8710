use vstd::prelude::*;

verus! {

/// Which key-binding scheme an entity is driven by.
#[derive(Clone, Copy, Debug, Default, PartialEq, Eq, Hash, Structural)]
pub enum Controller {
    #[default]
    One,
    Two,
}

/// The logical actions that keys are bound to.
#[derive(Clone, Copy, Debug, PartialEq, Eq, Hash, Structural)]
pub enum CharacterControl {
    Up,
    Down,
    Left,
    Right,
}

/// The physical keys that the two schemes use.
#[derive(Clone, Copy, Debug, PartialEq, Eq, Hash, Structural)]
pub enum KeyCode {
    W,
    A,
    S,
    D,
    Up,
    Down,
    Left,
    Right,
}

/// A movement intent, in whole world units on each axis.
#[derive(Clone, Copy, Debug, Default, PartialEq, Eq, Structural)]
pub struct CharacterMovement {
    pub x: i64,
    pub y: i64,
}

impl CharacterMovement {
    pub open spec fn view(self) -> (int, int) {
        (self.x as int, self.y as int)
    }

    pub open spec fn is_zero(self) -> bool {
        self.x == 0 && self.y == 0
    }
}

impl From<&CharacterControl> for CharacterMovement {
    /// The unit vector of one action.
    fn from(control: &CharacterControl) -> (r: CharacterMovement) {
        match control {
            CharacterControl::Up => CharacterMovement { x: 0, y: 1 },
            CharacterControl::Down => CharacterMovement { x: 0, y: -1 },
            CharacterControl::Left => CharacterMovement { x: -1, y: 0 },
            CharacterControl::Right => CharacterMovement { x: 1, y: 0 },
        }
    }
}

impl vstd::std_specs::convert::FromSpecImpl<&CharacterControl> for CharacterMovement {
    open spec fn obeys_from_spec() -> bool {
        true
    }

    open spec fn from_spec(v: &CharacterControl) -> CharacterMovement {
        movement_of(unit_of(*v))
    }
}

/// The unit vector of an action: up is +y, right is +x.
pub open spec fn unit_of(c: CharacterControl) -> (int, int) {
    match c {
        CharacterControl::Up => (0, 1),
        CharacterControl::Down => (0, -1),
        CharacterControl::Left => (-1, 0),
        CharacterControl::Right => (1, 0),
    }
}

/// The vector sum of the unit vectors of a sequence of actions.
pub open spec fn sum_units(actions: Seq<CharacterControl>) -> (int, int)
    decreases actions.len(),
{
    if actions.len() == 0 {
        (0, 0)
    } else {
        let rest = sum_units(actions.drop_last());
        let u = unit_of(actions.last());
        (rest.0 + u.0, rest.1 + u.1)
    }
}

/// Scheme One: W/A/S/D for Up/Left/Down/Right.
pub open spec fn scheme_one() -> Seq<(KeyCode, CharacterControl)> {
    seq![
        (KeyCode::W, CharacterControl::Up),
        (KeyCode::A, CharacterControl::Left),
        (KeyCode::S, CharacterControl::Down),
        (KeyCode::D, CharacterControl::Right),
    ]
}

/// Scheme Two: the arrow keys for Up/Left/Down/Right.
pub open spec fn scheme_two() -> Seq<(KeyCode, CharacterControl)> {
    seq![
        (KeyCode::Up, CharacterControl::Up),
        (KeyCode::Left, CharacterControl::Left),
        (KeyCode::Down, CharacterControl::Down),
        (KeyCode::Right, CharacterControl::Right),
    ]
}

/// The bindings that a controller selects.
pub open spec fn scheme_of(c: Controller) -> Seq<(KeyCode, CharacterControl)> {
    match c {
        Controller::One => scheme_one(),
        Controller::Two => scheme_two(),
    }
}

/// Whether an action is held: some binding of it has its key among the held keys.
pub open spec fn action_pressed(
    bindings: Seq<(KeyCode, CharacterControl)>,
    held: Seq<KeyCode>,
    a: CharacterControl,
) -> bool {
    exists|i: int| 0 <= i < bindings.len() && #[trigger] bindings[i].1 == a && held.contains(bindings[i].0)
}

/// 1 if the action is held, 0 otherwise.
pub open spec fn held_count(
    bindings: Seq<(KeyCode, CharacterControl)>,
    held: Seq<KeyCode>,
    a: CharacterControl,
) -> int {
    if action_pressed(bindings, held, a) {
        1
    } else {
        0
    }
}

/// The intent that a set of held keys gives: the sum of the unit vectors of
/// every held action, each action counted once.
pub open spec fn intent_of(bindings: Seq<(KeyCode, CharacterControl)>, held: Seq<KeyCode>) -> (int, int) {
    (
        held_count(bindings, held, CharacterControl::Right) - held_count(bindings, held, CharacterControl::Left),
        held_count(bindings, held, CharacterControl::Up) - held_count(bindings, held, CharacterControl::Down),
    )
}

/// A key-binding attachment: which key drives which action.
#[derive(Clone, Debug, PartialEq, Eq)]
pub struct ControllerBundle {
    bindings: Vec<(KeyCode, CharacterControl)>,
}

impl ControllerBundle {
    pub closed spec fn view(&self) -> Seq<(KeyCode, CharacterControl)> {
        self.bindings@
    }

    fn new(bindings: [(KeyCode, CharacterControl); 4]) -> (r: ControllerBundle)
        ensures
            r@ == bindings@,
    {
        let mut v: Vec<(KeyCode, CharacterControl)> = Vec::new();
        let mut i: usize = 0;
        while i < 4
            invariant
                0 <= i <= 4,
                v@ == bindings@.subrange(0, i as int),
            decreases 4 - i,
        {
            v.push(bindings[i]);
            i = i + 1;
            assert(v@ =~= bindings@.subrange(0, i as int));
        }
        assert(v@ =~= bindings@);
        ControllerBundle { bindings: v }
    }

    /// The Scheme One bindings.
    pub fn key_controller_one() -> (r: ControllerBundle)
        ensures
            r@ == scheme_one(),
    {
        let r = Self::new(
            [
                (KeyCode::W, CharacterControl::Up),
                (KeyCode::A, CharacterControl::Left),
                (KeyCode::S, CharacterControl::Down),
                (KeyCode::D, CharacterControl::Right),
            ],
        );
        assert(r@ =~= scheme_one());
        r
    }

    /// The Scheme Two bindings.
    pub fn key_controller_two() -> (r: ControllerBundle)
        ensures
            r@ == scheme_two(),
    {
        let r = Self::new(
            [
                (KeyCode::Up, CharacterControl::Up),
                (KeyCode::Left, CharacterControl::Left),
                (KeyCode::Down, CharacterControl::Down),
                (KeyCode::Right, CharacterControl::Right),
            ],
        );
        assert(r@ =~= scheme_two());
        r
    }

    /// The bindings that a controller selects.
    pub fn for_controller(c: Controller) -> (r: ControllerBundle)
        ensures
            r@ == scheme_of(c),
    {
        match c {
            Controller::One => Self::key_controller_one(),
            Controller::Two => Self::key_controller_two(),
        }
    }

    /// The bindings, in order.
    pub fn bindings(&self) -> (r: &Vec<(KeyCode, CharacterControl)>)
        ensures
            r@ == self@,
    {
        &self.bindings
    }
}

/// 1 if the sequence holds the action, 0 otherwise.
pub open spec fn count_in(actions: Seq<CharacterControl>, a: CharacterControl) -> int {
    if actions.contains(a) {
        1
    } else {
        0
    }
}

/// For a sequence of actions in which none repeats, the vector sum of their
/// unit vectors has as x the presence of `Right` less that of `Left`, and as y
/// the presence of `Up` less that of `Down`.
pub proof fn lemma_sum_units_distinct(actions: Seq<CharacterControl>)
    requires
        actions.no_duplicates(),
    ensures
        sum_units(actions) == (
            count_in(actions, CharacterControl::Right) - count_in(actions, CharacterControl::Left),
            count_in(actions, CharacterControl::Up) - count_in(actions, CharacterControl::Down),
        ),
    decreases actions.len(),
{
    if actions.len() > 0 {
        let init = actions.drop_last();
        let last = actions.last();
        assert(init.no_duplicates());
        lemma_sum_units_distinct(init);
        assert(!init.contains(last)) by {
            if init.contains(last) {
                let k = choose|k: int| 0 <= k < init.len() && init[k] == last;
                assert(actions[k] == actions[actions.len() - 1]);
            }
        }
        assert forall|a: CharacterControl| #[trigger] actions.contains(a) == (init.contains(a) || a == last) by {
            if actions.contains(a) {
                let k = choose|k: int| 0 <= k < actions.len() && actions[k] == a;
                if k < init.len() {
                    assert(init[k] == a);
                }
            }
            if init.contains(a) {
                let k = choose|k: int| 0 <= k < init.len() && init[k] == a;
                assert(actions[k] == a);
            }
            if a == last {
                assert(actions[actions.len() - 1] == a);
            }
        }
    }
}

/// The intent of the held keys is the vector sum of the unit vectors of the
/// held actions, taken once each: for any sequence that lists each held action
/// exactly once, `sum_units` of it equals `intent_of`.
pub proof fn lemma_intent_is_vector_sum(
    bindings: Seq<(KeyCode, CharacterControl)>,
    held: Seq<KeyCode>,
    actions: Seq<CharacterControl>,
)
    requires
        actions.no_duplicates(),
        forall|a: CharacterControl| #[trigger] actions.contains(a) == action_pressed(bindings, held, a),
    ensures
        sum_units(actions) == intent_of(bindings, held),
{
    lemma_sum_units_distinct(actions);
    assert(actions.contains(CharacterControl::Up) == action_pressed(bindings, held, CharacterControl::Up));
    assert(actions.contains(CharacterControl::Down) == action_pressed(bindings, held, CharacterControl::Down));
    assert(actions.contains(CharacterControl::Left) == action_pressed(bindings, held, CharacterControl::Left));
    assert(actions.contains(CharacterControl::Right) == action_pressed(bindings, held, CharacterControl::Right));
}

/// Whether a key is among the held keys.
fn key_held(held: &Vec<KeyCode>, k: KeyCode) -> (r: bool)
    ensures
        r == held@.contains(k),
{
    let mut i: usize = 0;
    while i < held.len()
        invariant
            0 <= i <= held.len(),
            forall|j: int| 0 <= j < i ==> held@[j] != k,
        decreases held.len() - i,
    {
        if held[i] == k {
            return true;
        }
        i = i + 1;
    }
    false
}

impl ControllerBundle {
    /// Whether an action is held under these bindings.
    pub fn pressed(&self, held: &Vec<KeyCode>, a: CharacterControl) -> (r: bool)
        ensures
            r == action_pressed(self@, held@, a),
    {
        let mut i: usize = 0;
        while i < self.bindings.len()
            invariant
                0 <= i <= self.bindings.len(),
                forall|j: int|
                    0 <= j < i ==> !(#[trigger] self.bindings@[j].1 == a && held@.contains(self.bindings@[j].0)),
            decreases self.bindings.len() - i,
        {
            let (k, c) = self.bindings[i];
            if c == a && key_held(held, k) {
                return true;
            }
            i = i + 1;
        }
        false
    }

    /// The held actions, each once, in the order Up, Down, Left, Right.
    pub fn get_pressed(&self, held: &Vec<KeyCode>) -> (r: Vec<CharacterControl>)
        ensures
            r@.no_duplicates(),
            r@.len() <= 4,
            forall|a: CharacterControl| #[trigger] r@.contains(a) == action_pressed(self@, held@, a),
    {
        let all = [CharacterControl::Up, CharacterControl::Down, CharacterControl::Left, CharacterControl::Right];
        let ghost all_s = all@;
        assert(forall|a: CharacterControl| all_s.contains(a)) by {
            assert forall|a: CharacterControl| all_s.contains(a) by {
                match a {
                    CharacterControl::Up => assert(all_s[0] == a),
                    CharacterControl::Down => assert(all_s[1] == a),
                    CharacterControl::Left => assert(all_s[2] == a),
                    CharacterControl::Right => assert(all_s[3] == a),
                }
            }
        }
        let mut r: Vec<CharacterControl> = Vec::new();
        let mut i: usize = 0;
        while i < 4
            invariant
                0 <= i <= 4,
                r@.len() <= i,
                all@ == all_s,
                all_s.no_duplicates(),
                r@.no_duplicates(),
                forall|a: CharacterControl|
                    #[trigger] r@.contains(a) == (action_pressed(self@, held@, a) && all_s.subrange(0, i as int).contains(a)),
            decreases 4 - i,
        {
            let a = all[i];
            let ghost before = r@;
            if self.pressed(held, a) {
                r.push(a);
                assert(!before.contains(a)) by {
                    if before.contains(a) {
                        let k = choose|k: int| 0 <= k < i && all_s[k] == a;
                        assert(all_s.subrange(0, i as int)[k] == a);
                    }
                }
            }
            assert forall|b: CharacterControl| #[trigger] r@.contains(b) == (action_pressed(self@, held@, b)
                && all_s.subrange(0, i + 1).contains(b)) by {
                let pre = all_s.subrange(0, i as int);
                let post = all_s.subrange(0, i + 1);
                assert(post =~= pre.push(a));
                if post.contains(b) && b != a {
                    let k = choose|k: int| 0 <= k < post.len() && post[k] == b;
                    assert(pre[k] == b);
                }
                if pre.contains(b) {
                    let k = choose|k: int| 0 <= k < pre.len() && pre[k] == b;
                    assert(post[k] == b);
                }
                assert(post[i as int] == a);
                if r@.contains(b) && b != a {
                    let k = choose|k: int| 0 <= k < r@.len() && r@[k] == b;
                    if k < before.len() {
                        assert(before[k] == b);
                    }
                }
                if before.contains(b) {
                    let k = choose|k: int| 0 <= k < before.len() && before[k] == b;
                    assert(r@[k] == b);
                }
                if b == a && action_pressed(self@, held@, b) {
                    assert(r@[r@.len() - 1] == b);
                }
            }
            i = i + 1;
        }
        assert(all_s.subrange(0, 4) =~= all_s);
        r
    }
}

/// The vector sum of the unit vectors of the given actions.
pub fn movement_sum(actions: &Vec<CharacterControl>) -> (r: CharacterMovement)
    requires
        actions@.len() <= i64::MAX,
    ensures
        r@ == sum_units(actions@),
{
    let mut x: i64 = 0;
    let mut y: i64 = 0;
    let mut i: usize = 0;
    while i < actions.len()
        invariant
            0 <= i <= actions.len(),
            actions@.len() <= i64::MAX,
            (x as int, y as int) == sum_units(actions@.subrange(0, i as int)),
            -(i as int) <= x <= i,
            -(i as int) <= y <= i,
        decreases actions.len() - i,
    {
        let u = CharacterMovement::from(&actions[i]);
        assert(actions@.subrange(0, i + 1).drop_last() =~= actions@.subrange(0, i as int));
        x = x + u.x;
        y = y + u.y;
        i = i + 1;
    }
    assert(actions@.subrange(0, actions@.len() as int) =~= actions@);
    CharacterMovement { x, y }
}

/// A point in world space, in whole world units.
#[derive(Clone, Copy, Debug, Default, PartialEq, Eq, Structural)]
pub struct WorldPoint {
    pub x: i32,
    pub y: i32,
}

/// How far a touch point must lie from the character before it pulls the
/// character toward it.
pub const FOLLOW_EPSILON: i64 = 5;

/// The pull of a touch point: the vector from the character to it, where that
/// vector is longer than `FOLLOW_EPSILON`.
pub open spec fn follow_target(position: WorldPoint, touch: WorldPoint) -> Option<(int, int)> {
    let dx = touch.x - position.x;
    let dy = touch.y - position.y;
    if dx * dx + dy * dy > FOLLOW_EPSILON * FOLLOW_EPSILON {
        Some((dx, dy))
    } else {
        None
    }
}

/// The vector from the character to a touch point, if it is longer than
/// `FOLLOW_EPSILON`.
pub fn follow_vector(position: WorldPoint, touch: WorldPoint) -> (r: Option<CharacterMovement>)
    ensures
        match follow_target(position, touch) {
            Some(d) => r.is_some() && r.unwrap()@ == d,
            None => r.is_none(),
        },
{
    let dx: i64 = touch.x as i64 - position.x as i64;
    let dy: i64 = touch.y as i64 - position.y as i64;
    let wx: i128 = dx as i128;
    let wy: i128 = dy as i128;
    assert(-0x1_0000_0000 <= wx <= 0x1_0000_0000);
    assert(wx * wx <= 0x1_0000_0000_0000_0000) by (nonlinear_arith)
        requires -0x1_0000_0000 <= wx <= 0x1_0000_0000;
    assert(wy * wy <= 0x1_0000_0000_0000_0000) by (nonlinear_arith)
        requires -0x1_0000_0000 <= wy <= 0x1_0000_0000;
    assert(wx * wx >= 0 && wy * wy >= 0) by (nonlinear_arith);
    let eps: i128 = FOLLOW_EPSILON as i128;
    if wx * wx + wy * wy > eps * eps {
        Some(CharacterMovement { x: dx, y: dy })
    } else {
        None
    }
}

/// An intent of the given components.
pub open spec fn movement_of(v: (int, int)) -> CharacterMovement {
    CharacterMovement { x: v.0 as i64, y: v.1 as i64 }
}

/// The intent after the keyboard step: a non-zero intent of the held keys
/// overwrites it; with no bindings, or a zero sum, it stays.
pub open spec fn keyboard_step(
    controls: Option<Seq<(KeyCode, CharacterControl)>>,
    held: Seq<KeyCode>,
    m: Option<CharacterMovement>,
) -> Option<CharacterMovement> {
    match controls {
        Some(b) => if intent_of(b, held) != (0int, 0int) {
            Some(movement_of(intent_of(b, held)))
        } else {
            m
        },
        None => m,
    }
}

/// The intent after the touch step: only a present intent is touched, and
/// only by a pressed point farther than `FOLLOW_EPSILON`.
pub open spec fn touch_step(m: Option<CharacterMovement>, position: WorldPoint, touch: Option<WorldPoint>) -> Option<CharacterMovement> {
    match (m, touch) {
        (Some(_), Some(t)) => match follow_target(position, t) {
            Some(d) => Some(movement_of(d)),
            None => m,
        },
        _ => m,
    }
}

/// The direction the integrator moves in for an intent: none for an absent
/// or zero intent.
pub open spec fn consumed(m: Option<CharacterMovement>) -> Option<CharacterMovement> {
    match m {
        Some(v) => if v.is_zero() {
            None
        } else {
            Some(v)
        },
        None => None,
    }
}

/// A tick in which no input step writes an intent moves nothing: where the
/// intent was cleared by the previous tick and the held keys sum to zero (or
/// no bindings are attached), neither input step writes one, whatever the
/// touch point, and the integrator hands out no movement.
pub proof fn lemma_idle_tick(
    controls: Option<Seq<(KeyCode, CharacterControl)>>,
    held: Seq<KeyCode>,
    position: WorldPoint,
    touch: Option<WorldPoint>,
)
    requires
        match controls {
            Some(b) => intent_of(b, held) == (0int, 0int),
            None => true,
        },
    ensures
        keyboard_step(controls, held, None) == None::<CharacterMovement>,
        touch_step(None, position, touch) == None::<CharacterMovement>,
        consumed(touch_step(keyboard_step(controls, held, None), position, touch)) == None::<CharacterMovement>,
{
}

/// The binding attachment of an entity, seen as its bindings.
pub open spec fn controls_view(c: Option<ControllerBundle>) -> Option<Seq<(KeyCode, CharacterControl)>> {
    match c {
        Some(b) => Some(b@),
        None => None,
    }
}

/// A player-controlled character: its controller selection, whether that
/// selection changed since the last resync, its key-binding attachment, and
/// its movement intent for this tick (absent means stationary).
pub struct Player {
    pub controller: Controller,
    pub controller_changed: bool,
    pub controls: Option<ControllerBundle>,
    pub movement: Option<CharacterMovement>,
}

impl Player {
    /// A character with the given controller and nothing attached yet; the
    /// selection counts as changed, so the next resync attaches its bindings.
    pub fn new(controller: Controller) -> (r: Player)
        ensures
            r.controller == controller,
            r.controller_changed,
            r.controls.is_none(),
            r.movement.is_none(),
    {
        Player { controller, controller_changed: true, controls: None, movement: None }
    }

    /// Selects a controller and marks the selection as changed.
    pub fn set_controller(&mut self, c: Controller)
        ensures
            final(self).controller == c,
            final(self).controller_changed,
            controls_view(final(self).controls) == controls_view(old(self).controls),
            final(self).movement == old(self).movement,
    {
        self.controller = c;
        self.controller_changed = true;
    }

    /// Resync: where the selection changed, the old attachment is dropped and
    /// exactly the bindings of the selected scheme are attached.
    pub fn sync_controller(&mut self)
        ensures
            final(self).controller == old(self).controller,
            !final(self).controller_changed,
            final(self).movement == old(self).movement,
            controls_view(final(self).controls) == if old(self).controller_changed {
                Some(scheme_of(old(self).controller))
            } else {
                controls_view(old(self).controls)
            },
    {
        if self.controller_changed {
            self.controls = None;
            self.controls = Some(ControllerBundle::for_controller(self.controller));
            self.controller_changed = false;
        }
    }

    /// Keyboard intent: with bindings attached, a non-zero sum of the held
    /// actions' unit vectors overwrites the intent; otherwise nothing changes.
    pub fn queue_inputs(&mut self, held: &Vec<KeyCode>)
        ensures
            final(self).controller == old(self).controller,
            final(self).controller_changed == old(self).controller_changed,
            controls_view(final(self).controls) == controls_view(old(self).controls),
            final(self).movement == keyboard_step(controls_view(old(self).controls), held@, old(self).movement),
    {
        match &self.controls {
            Some(b) => {
                let pressed = b.get_pressed(held);
                proof {
                    lemma_intent_is_vector_sum(b@, held@, pressed@);
                }
                let m = movement_sum(&pressed);
                if !(m.x == 0 && m.y == 0) {
                    self.movement = Some(m);
                }
            },
            None => {},
        }
    }

    /// Touch intent: while the character holds an intent and a touch point is
    /// pressed, a touch point farther than `FOLLOW_EPSILON` sets the intent to
    /// the exact vector toward it; a nearer one, or none, changes nothing.
    pub fn set_mobile_action(&mut self, position: WorldPoint, touch: Option<WorldPoint>)
        ensures
            final(self).controller == old(self).controller,
            final(self).controller_changed == old(self).controller_changed,
            controls_view(final(self).controls) == controls_view(old(self).controls),
            final(self).movement == touch_step(old(self).movement, position, touch),
    {
        if self.movement.is_some() {
            if let Some(t) = touch {
                if let Some(d) = follow_vector(position, t) {
                    self.movement = Some(d);
                }
            }
        }
    }

    /// The integrator's step on this character: hands out the direction to
    /// move in this tick and clears the intent. An absent intent, or one of
    /// zero length, gives no movement.
    pub fn consume_action(&mut self) -> (r: Option<CharacterMovement>)
        ensures
            final(self).controller == old(self).controller,
            final(self).controller_changed == old(self).controller_changed,
            controls_view(final(self).controls) == controls_view(old(self).controls),
            final(self).movement.is_none(),
            r == consumed(old(self).movement),
    {
        let m = self.movement;
        self.movement = None;
        match m {
            Some(v) => if v.x == 0 && v.y == 0 {
                None
            } else {
                Some(v)
            },
            None => None,
        }
    }
}

impl Player {
    /// One tick of the character's pipeline, in its fixed order: resync the
    /// controller, keyboard intent, touch intent (which thus overrides the
    /// keyboard), then the integrator's step. Returns the direction to move in.
    pub fn tick(&mut self, held: &Vec<KeyCode>, position: WorldPoint, touch: Option<WorldPoint>) -> (r: Option<
        CharacterMovement,
    >)
        ensures
            final(self).controller == old(self).controller,
            !final(self).controller_changed,
            controls_view(final(self).controls) == synced_controls(*old(self)),
            final(self).movement.is_none(),
            r == consumed(
                touch_step(keyboard_step(synced_controls(*old(self)), held@, old(self).movement), position, touch),
            ),
    {
        self.sync_controller();
        self.queue_inputs(held);
        self.set_mobile_action(position, touch);
        self.consume_action()
    }
}

/// The resync system: every character whose selection changed gets exactly
/// the bindings of its selected scheme; the others keep what they hold.
pub fn sync_controllers(players: &mut Vec<Player>)
    ensures
        final(players)@.len() == old(players)@.len(),
        forall|i: int|
            0 <= i < old(players)@.len() ==> {
                &&& (#[trigger] final(players)@[i]).controller == old(players)@[i].controller
                &&& !final(players)@[i].controller_changed
                &&& controls_view(final(players)@[i].controls) == synced_controls(old(players)@[i])
                &&& final(players)@[i].movement == old(players)@[i].movement
            },
{
    let mut i: usize = 0;
    while i < players.len()
        invariant
            0 <= i <= players@.len(),
            players@.len() == old(players)@.len(),
            forall|j: int|
                0 <= j < i ==> {
                    &&& (#[trigger] players@[j]).controller == old(players)@[j].controller
                    &&& !players@[j].controller_changed
                    &&& controls_view(players@[j].controls) == synced_controls(old(players)@[j])
                    &&& players@[j].movement == old(players)@[j].movement
                },
            forall|j: int| i <= j < players@.len() ==> #[trigger] players@[j] == old(players)@[j],
        decreases players@.len() - i,
    {
        players[i].sync_controller();
        i = i + 1;
    }
}

/// The bindings a character holds after a resync.
pub open spec fn synced_controls(p: Player) -> Option<Seq<(KeyCode, CharacterControl)>> {
    if p.controller_changed {
        Some(scheme_of(p.controller))
    } else {
        controls_view(p.controls)
    }
}

/// No binding of Scheme One is a binding of Scheme Two, nor uses one of its
/// keys: after a resync from `One` to `Two` the attachment holds the Scheme
/// Two bindings and nothing of Scheme One.
pub proof fn lemma_schemes_disjoint()
    ensures
        forall|i: int, j: int| 0 <= i < 4 && 0 <= j < 4 ==> scheme_one()[i] != scheme_two()[j],
        forall|i: int, j: int| 0 <= i < 4 && 0 <= j < 4 ==> scheme_one()[i].0 != scheme_two()[j].0,
{
}

} // verus!
