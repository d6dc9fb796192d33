//! The simulation's window and keyboard state machine, the camera movement
//! direction the held keys ask for, and the compute dispatch sizes.
use std::collections::HashSet;
use vstd::prelude::*;

verus! {

broadcast use vstd::std_specs::hash::group_hash_axioms;

/// The number of simulated cells.
pub const CELL_COUNT: usize = 1_000_000;

/// The number of cells one work group of the cell compute shader handles.
pub const CELL_GROUP_SIZE: usize = 1024;

/// The width and height, in pixels, of one work group of the diffusion
/// compute shader.
pub const DIFFUSE_GROUP_SIZE: u32 = 8;

/// A window-system event, as the simulation sees it. Keys are scan codes.
#[derive(Clone, Copy, Debug, PartialEq, Eq, Structural)]
pub enum InputEvent {
    /// The user asked to close the application.
    Quit,
    /// The window now has the given size in pixels.
    Resized { width: i32, height: i32 },
    /// The mouse wheel moved by `y` steps; `flipped` when the platform
    /// reports the direction inverted.
    MouseWheel { y: i32, flipped: bool },
    /// A key was pressed (`None` when it has no scan code).
    KeyDown(Option<i32>),
    /// A key was released (`None` when it has no scan code).
    KeyUp(Option<i32>),
    /// Any other event; it changes nothing.
    Other,
}

/// What the caller has to do after an event, beyond the input state.
#[derive(Clone, Copy, Debug, PartialEq, Eq, Structural)]
pub enum InputResponse {
    Nothing,
    /// Add this many wheel steps to the zoom velocity.
    Zoom(i32),
}

/// The abstract input state: whether the application still runs, the
/// window size, and the set of keys held down.
pub struct InputView {
    pub running: bool,
    pub window_size: (i32, i32),
    pub keys_down: Set<i32>,
}

/// A mouse wheel event can be turned into zoom steps unless it is a flipped
/// move by `i32::MIN` steps, whose negation does not fit in an `i32`.
pub open spec fn event_is_handled(e: InputEvent) -> bool {
    match e {
        InputEvent::MouseWheel { y, flipped } => !(flipped && y == i32::MIN),
        _ => true,
    }
}

/// The input state after event `e`.
pub open spec fn next_input(v: InputView, e: InputEvent) -> InputView {
    match e {
        InputEvent::Quit => InputView { running: false, ..v },
        InputEvent::Resized { width, height } => InputView { window_size: (width, height), ..v },
        InputEvent::KeyDown(Some(k)) => InputView { keys_down: v.keys_down.insert(k), ..v },
        InputEvent::KeyUp(Some(k)) => InputView { keys_down: v.keys_down.remove(k), ..v },
        _ => v,
    }
}

/// What the caller has to do after event `e`: a mouse wheel move asks to
/// zoom by its steps, negated when flipped.
pub open spec fn input_response(e: InputEvent) -> InputResponse {
    match e {
        InputEvent::MouseWheel { y, flipped } => if flipped {
            InputResponse::Zoom((-y) as i32)
        } else {
            InputResponse::Zoom(y)
        },
        _ => InputResponse::Nothing,
    }
}

/// The movement one axis gets from a pair of keys: `+1` for the first held
/// alone, `-1` for the second held alone, `0` otherwise.
pub open spec fn axis(plus: bool, minus: bool) -> i32 {
    if plus == minus {
        0
    } else if plus {
        1
    } else {
        -1i32
    }
}

/// The window-system input state of the simulation.
pub struct InputState {
    running: bool,
    window_size: (i32, i32),
    keys_down: HashSet<i32>,
}

impl View for InputState {
    type V = InputView;

    closed spec fn view(&self) -> InputView {
        InputView {
            running: self.running,
            window_size: self.window_size,
            keys_down: self.keys_down@,
        }
    }
}

impl InputState {
    /// A running application with a window of the given size and no key
    /// held.
    pub fn new(width: i32, height: i32) -> (r: InputState)
        ensures
            r@.running,
            r@.window_size == (width, height),
            r@.keys_down == Set::<i32>::empty(),
    {
        InputState { running: true, window_size: (width, height), keys_down: HashSet::new() }
    }

    /// Takes one event into account and says what the caller still has to
    /// do about it.
    pub fn handle_event(&mut self, event: InputEvent) -> (r: InputResponse)
        requires
            event_is_handled(event),
        ensures
            final(self)@ == next_input(old(self)@, event),
            r == input_response(event),
            event matches InputEvent::MouseWheel { y, flipped } ==> (r matches InputResponse::Zoom(
                z,
            ) && (if flipped {
                z + y == 0
            } else {
                z == y
            })),
            !(event is MouseWheel) ==> r == InputResponse::Nothing,
    {
        match event {
            InputEvent::Quit => {
                self.running = false;
                InputResponse::Nothing
            },
            InputEvent::Resized { width, height } => {
                self.window_size = (width, height);
                InputResponse::Nothing
            },
            InputEvent::MouseWheel { y, flipped } => {
                let steps = if flipped {
                    -y
                } else {
                    y
                };
                InputResponse::Zoom(steps)
            },
            InputEvent::KeyDown(Some(k)) => {
                self.keys_down.insert(k);
                InputResponse::Nothing
            },
            InputEvent::KeyUp(Some(k)) => {
                self.keys_down.remove(&k);
                InputResponse::Nothing
            },
            _ => InputResponse::Nothing,
        }
    }

    /// Whether the application still runs.
    pub fn is_running(&self) -> (r: bool)
        ensures
            r == self@.running,
    {
        self.running
    }

    /// The window size in pixels.
    pub fn window_size(&self) -> (r: (i32, i32))
        ensures
            r == self@.window_size,
    {
        self.window_size
    }

    /// Whether the key with scan code `key` is held down.
    pub fn is_key_down(&self, key: i32) -> (r: bool)
        ensures
            r == self@.keys_down.contains(key),
    {
        self.keys_down.contains(&key)
    }

    /// The camera movement the held keys ask for: on the first axis `+1`
    /// for `left` alone and `-1` for `right` alone, on the second `+1` for
    /// `down` alone and `-1` for `up` alone; opposite keys cancel.
    pub fn movement_direction(&self, left: i32, right: i32, up: i32, down: i32) -> (r: (i32, i32))
        ensures
            r == (
                axis(self@.keys_down.contains(left), self@.keys_down.contains(right)),
                axis(self@.keys_down.contains(down), self@.keys_down.contains(up)),
            ),
    {
        let mut x: i32 = 0;
        let mut y: i32 = 0;
        if self.keys_down.contains(&left) {
            x = x + 1;
        }
        if self.keys_down.contains(&right) {
            x = x - 1;
        }
        if self.keys_down.contains(&up) {
            y = y - 1;
        }
        if self.keys_down.contains(&down) {
            y = y + 1;
        }
        (x, y)
    }
}

/// The work groups of the diffusion pass over a window of the given size:
/// one per `8 x 8` block of pixels, the size taken as unsigned.
pub fn diffuse_work_groups(window_size: (i32, i32)) -> (r: (u32, u32, u32))
    ensures
        r == ((window_size.0 as u32) / DIFFUSE_GROUP_SIZE, (window_size.1 as u32)
            / DIFFUSE_GROUP_SIZE, 1u32),
{
    let w: u32 = window_size.0 as u32;
    let h: u32 = window_size.1 as u32;
    (w / DIFFUSE_GROUP_SIZE, h / DIFFUSE_GROUP_SIZE, 1)
}

/// The work groups of the cell pass: one per `1024` cells, on one axis.
pub fn cell_work_groups() -> (r: (u32, u32, u32))
    ensures
        r == ((CELL_COUNT / CELL_GROUP_SIZE) as u32, 1u32, 1u32),
        r.0 == 976,
{
    let n: usize = CELL_COUNT / CELL_GROUP_SIZE;
    (n as u32, 1, 1)
}

/// A mouse wheel move asks to zoom by exactly its steps, whatever their
/// sign: unflipped by `y` itself, flipped by `-y`; every other event asks
/// for nothing.
pub proof fn lemma_wheel_zooms_by_its_steps(y: i32, e: InputEvent)
    ensures
        input_response(InputEvent::MouseWheel { y, flipped: false }) matches InputResponse::Zoom(z)
            && z == y,
        y != i32::MIN ==> (input_response(InputEvent::MouseWheel { y, flipped: true })
            matches InputResponse::Zoom(z) && z + y == 0),
        !(e is MouseWheel) ==> input_response(e) == InputResponse::Nothing,
{
}

/// Once the application has stopped running, no event makes it run again;
/// a quit event always stops it.
pub proof fn lemma_quit_is_final(v: InputView, e: InputEvent)
    ensures
        !v.running ==> !next_input(v, e).running,
        !next_input(v, InputEvent::Quit).running,
{
}

/// Pressing a key holds it down; releasing it lets it go; other keys are
/// untouched by either.
pub proof fn lemma_key_press_release(v: InputView, k: i32, other: i32)
    requires
        other != k,
    ensures
        next_input(v, InputEvent::KeyDown(Some(k))).keys_down.contains(k),
        !next_input(v, InputEvent::KeyUp(Some(k))).keys_down.contains(k),
        next_input(v, InputEvent::KeyDown(Some(k))).keys_down.contains(other)
            == v.keys_down.contains(other),
        next_input(v, InputEvent::KeyUp(Some(k))).keys_down.contains(other)
            == v.keys_down.contains(other),
{
}

/// Pressing then releasing a key that was not held leaves the held keys as
/// they were.
pub proof fn lemma_press_then_release_restores(v: InputView, k: i32)
    requires
        !v.keys_down.contains(k),
    ensures
        next_input(next_input(v, InputEvent::KeyDown(Some(k))), InputEvent::KeyUp(Some(k)))
            == v,
{
    assert(v.keys_down.insert(k).remove(k) =~= v.keys_down);
}

/// A resize sets the window size; every other event keeps it.
pub proof fn lemma_window_size_follows_resizes(v: InputView, e: InputEvent)
    ensures
        next_input(v, e).window_size == match e {
            InputEvent::Resized { width, height } => (width, height),
            _ => v.window_size,
        },
{
}

/// Only key events change the held keys, and only quit changes whether the
/// application runs.
pub proof fn lemma_events_touch_their_own_part(v: InputView, e: InputEvent)
    ensures
        !(e is KeyDown || e is KeyUp) ==> next_input(v, e).keys_down == v.keys_down,
        !(e is Quit) ==> next_input(v, e).running == v.running,
{
}

/// Events that neither quit, resize nor press or release a key with a
/// scan code leave the whole input state as it was.
pub proof fn lemma_other_events_change_nothing(v: InputView, e: InputEvent)
    requires
        !(e is Quit),
        !(e is Resized),
        !(e matches InputEvent::KeyDown(Some(_))),
        !(e matches InputEvent::KeyUp(Some(_))),
    ensures
        next_input(v, e) == v,
{
}

/// The movement asked for by the held keys: the first axis is `+1` exactly
/// when `left` is held and `right` is not, `-1` exactly when `right` is held
/// and `left` is not, and `0` exactly when both or neither are held; the
/// second axis likewise with `down` for `+1` and `up` for `-1`.
pub proof fn lemma_movement_follows_held_keys(
    keys: Set<i32>,
    left: i32,
    right: i32,
    up: i32,
    down: i32,
)
    ensures
        axis(keys.contains(left), keys.contains(right)) == 1 <==> (keys.contains(left)
            && !keys.contains(right)),
        axis(keys.contains(left), keys.contains(right)) == -1 <==> (keys.contains(right)
            && !keys.contains(left)),
        axis(keys.contains(left), keys.contains(right)) == 0 <==> (keys.contains(left)
            == keys.contains(right)),
        axis(keys.contains(down), keys.contains(up)) == 1 <==> (keys.contains(down)
            && !keys.contains(up)),
        axis(keys.contains(down), keys.contains(up)) == -1 <==> (keys.contains(up)
            && !keys.contains(down)),
        axis(keys.contains(down), keys.contains(up)) == 0 <==> (keys.contains(down)
            == keys.contains(up)),
{
}

/// Holding two opposite keys together gives no movement on their axis.
pub proof fn lemma_opposite_keys_cancel(plus: bool)
    ensures
        axis(plus, plus) == 0,
        axis(true, false) == 1,
        axis(false, true) == -1,
{
}

} // verus!
