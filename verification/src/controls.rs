use vstd::prelude::*;

verus! {

/// How the player steers the mantis.
#[derive(PartialEq, Eq, Structural, Clone, Copy, Debug)]
pub enum MovementMode {
    Mouse,
    Keyboard,
    Auto,
    Legacy,
}

/// World-wide settings: the control scheme in use.
#[derive(PartialEq, Eq, Structural, Clone, Copy, Debug)]
pub struct WorldOptions {
    pub movement_mode: MovementMode,
}

/// Which of the steering keys W, A, S and D are held down in this frame.
#[derive(PartialEq, Eq, Structural, Clone, Copy, Debug)]
pub struct HeldKeys {
    pub w: bool,
    pub a: bool,
    pub s: bool,
    pub d: bool,
}

/// Direction of a keyboard step on the ground plane: each component is
/// -1, 0 or 1 and is scaled by the mantis' speed and the frame time.
#[derive(PartialEq, Eq, Structural, Clone, Copy, Debug)]
pub struct Stride {
    pub x: i8,
    pub z: i8,
}

/// Tank-style steering: `turn` is the sign of the yaw rotation and
/// `advance` the sign of the move along the mantis' forward vector.
#[derive(PartialEq, Eq, Structural, Clone, Copy, Debug)]
pub struct LegacyDrive {
    pub turn: i8,
    pub advance: i8,
}

/// The mode that follows `mode` when the player presses the switch key.
pub open spec fn following_mode(mode: MovementMode) -> MovementMode {
    match mode {
        MovementMode::Mouse => MovementMode::Keyboard,
        MovementMode::Keyboard => MovementMode::Auto,
        MovementMode::Auto => MovementMode::Legacy,
        MovementMode::Legacy => MovementMode::Mouse,
    }
}

/// Sign of an axis driven by two keys, where `first` wins when both are held.
pub open spec fn key_axis(first: bool, first_sign: i8, second: bool, second_sign: i8) -> i8 {
    if first {
        first_sign
    } else if second {
        second_sign
    } else {
        0
    }
}

/// The step the keyboard scheme takes: A before D on the x axis, W before S on z.
pub open spec fn keyboard_stride(options: WorldOptions, keys: HeldKeys) -> Option<Stride> {
    if options.movement_mode == MovementMode::Keyboard {
        Some(Stride { x: key_axis(keys.a, -1i8, keys.d, 1i8), z: key_axis(keys.w, 1i8, keys.s, -1i8) })
    } else {
        None
    }
}

/// Whether the mouse scheme walks the mantis toward the cursor.
pub open spec fn mouse_walks(options: WorldOptions, ground_point_found: bool, left_pressed: bool) -> bool {
    options.movement_mode == MovementMode::Mouse && ground_point_found && left_pressed
}

/// The drive of the legacy scheme: D before A for turning, W before S for moving.
pub open spec fn legacy_drive(options: WorldOptions, keys: HeldKeys) -> Option<LegacyDrive> {
    if options.movement_mode == MovementMode::Legacy {
        Some(LegacyDrive { turn: key_axis(keys.d, -1i8, keys.a, 1i8), advance: key_axis(keys.w, 1i8, keys.s, -1i8) })
    } else {
        None
    }
}

/// Returns the mode that follows `mode` in the switching cycle
/// Mouse, Keyboard, Auto, Legacy, Mouse, ...
pub fn next_movement_mode(mode: MovementMode) -> (next: MovementMode)
    ensures
        next == following_mode(mode),
        mode == MovementMode::Mouse ==> next == MovementMode::Keyboard,
        mode == MovementMode::Keyboard ==> next == MovementMode::Auto,
        mode == MovementMode::Auto ==> next == MovementMode::Legacy,
        mode == MovementMode::Legacy ==> next == MovementMode::Mouse,
{
    match mode {
        MovementMode::Mouse => MovementMode::Keyboard,
        MovementMode::Keyboard => MovementMode::Auto,
        MovementMode::Auto => MovementMode::Legacy,
        MovementMode::Legacy => MovementMode::Mouse,
    }
}

/// Advances the control scheme by one place in the cycle when the switch
/// key (M) was just pressed, and leaves it alone otherwise.
pub fn switch_movement_mode(options: &mut WorldOptions, switch_just_pressed: bool)
    ensures
        final(options).movement_mode == if switch_just_pressed {
            following_mode(old(options).movement_mode)
        } else {
            old(options).movement_mode
        },
{
    if switch_just_pressed {
        options.movement_mode = next_movement_mode(options.movement_mode);
    }
}

fn key_axis_value(first: bool, first_sign: i8, second: bool, second_sign: i8) -> (v: i8)
    ensures
        v == key_axis(first, first_sign, second, second_sign),
{
    if first {
        first_sign
    } else if second {
        second_sign
    } else {
        0
    }
}

/// The keyboard scheme: `None` unless it is the active scheme, else the
/// direction of this frame's step (A overrides D, W overrides S).
pub fn keyboard_controls(options: &WorldOptions, keys: &HeldKeys) -> (stride: Option<Stride>)
    ensures
        stride == keyboard_stride(*options, *keys),
        stride is Some <==> options.movement_mode == MovementMode::Keyboard,
        stride matches Some(st) ==> {
            &&& (keys.a ==> st.x == -1)
            &&& (!keys.a && keys.d ==> st.x == 1)
            &&& (!keys.a && !keys.d ==> st.x == 0)
            &&& (keys.w ==> st.z == 1)
            &&& (!keys.w && keys.s ==> st.z == -1)
            &&& (!keys.w && !keys.s ==> st.z == 0)
        },
{
    if options.movement_mode != MovementMode::Keyboard {
        return None;
    }
    Some(Stride { x: key_axis_value(keys.a, -1, keys.d, 1), z: key_axis_value(keys.w, 1, keys.s, -1) })
}

/// The mouse scheme: the mantis walks toward the point under the cursor
/// when the scheme is active, that point lies on the ground plane and the
/// left button is held.
pub fn mouse_controls(options: &WorldOptions, ground_point_found: bool, left_pressed: bool) -> (walks: bool)
    ensures
        walks == mouse_walks(*options, ground_point_found, left_pressed),
        walks <==> (options.movement_mode == MovementMode::Mouse && ground_point_found && left_pressed),
{
    if options.movement_mode != MovementMode::Mouse {
        return false;
    }
    ground_point_found && left_pressed
}

/// The legacy scheme: `None` unless it is the active scheme, else the turn
/// (D overrides A, D turning clockwise) and the move along the forward
/// vector (W overrides S).
pub fn legacy_controls(options: &WorldOptions, keys: &HeldKeys) -> (drive: Option<LegacyDrive>)
    ensures
        drive == legacy_drive(*options, *keys),
        drive is Some <==> options.movement_mode == MovementMode::Legacy,
        drive matches Some(dr) ==> {
            &&& (keys.d ==> dr.turn == -1)
            &&& (!keys.d && keys.a ==> dr.turn == 1)
            &&& (!keys.d && !keys.a ==> dr.turn == 0)
            &&& (keys.w ==> dr.advance == 1)
            &&& (!keys.w && keys.s ==> dr.advance == -1)
            &&& (!keys.w && !keys.s ==> dr.advance == 0)
        },
{
    if options.movement_mode != MovementMode::Legacy {
        return None;
    }
    Some(LegacyDrive {
        turn: key_axis_value(keys.d, -1, keys.a, 1),
        advance: key_axis_value(keys.w, 1, keys.s, -1),
    })
}

/// In the keyboard scheme the two axes are driven independently: the x
/// step depends only on A and D (A going to -x, D to +x, A winning when
/// both are held) and the z step only on W and S (W going to +z, S to -z,
/// W winning), so a diagonal key pair moves diagonally.
pub proof fn keyboard_axes_are_independent(options: WorldOptions, keys: HeldKeys, other: HeldKeys)
    requires
        options.movement_mode == MovementMode::Keyboard,
    ensures
        keyboard_stride(options, keys) is Some,
        keys.a == other.a && keys.d == other.d ==> keyboard_stride(options, keys)->Some_0.x
            == keyboard_stride(options, other)->Some_0.x,
        keys.w == other.w && keys.s == other.s ==> keyboard_stride(options, keys)->Some_0.z
            == keyboard_stride(options, other)->Some_0.z,
        keyboard_stride(options, keys)->Some_0.x == (if keys.a {
            -1int
        } else if keys.d {
            1int
        } else {
            0int
        }),
        keyboard_stride(options, keys)->Some_0.z == (if keys.w {
            1int
        } else if keys.s {
            -1int
        } else {
            0int
        }),
{
}

/// In the legacy scheme turning and moving are decided independently: the
/// turn depends only on D and A (D clockwise, A counter-clockwise, D
/// winning) and the move only on W and S (W forward, S backward, W
/// winning), so one can drive forward while turning.
pub proof fn legacy_turn_and_drive_are_independent(options: WorldOptions, keys: HeldKeys, other: HeldKeys)
    requires
        options.movement_mode == MovementMode::Legacy,
    ensures
        legacy_drive(options, keys) is Some,
        keys.d == other.d && keys.a == other.a ==> legacy_drive(options, keys)->Some_0.turn
            == legacy_drive(options, other)->Some_0.turn,
        keys.w == other.w && keys.s == other.s ==> legacy_drive(options, keys)->Some_0.advance
            == legacy_drive(options, other)->Some_0.advance,
        legacy_drive(options, keys)->Some_0.turn == (if keys.d {
            -1int
        } else if keys.a {
            1int
        } else {
            0int
        }),
        legacy_drive(options, keys)->Some_0.advance == (if keys.w {
            1int
        } else if keys.s {
            -1int
        } else {
            0int
        }),
{
}

/// The mode after the switch key has been pressed `presses` times.
pub open spec fn mode_after_presses(mode: MovementMode, presses: nat) -> MovementMode
    decreases presses,
{
    if presses == 0 {
        mode
    } else {
        following_mode(mode_after_presses(mode, (presses - 1) as nat))
    }
}

/// Whether fewer than four presses of the switch key lead from `mode` to `target`.
pub open spec fn reached_within_cycle(mode: MovementMode, target: MovementMode) -> bool {
    exists|presses: nat| presses < 4 && #[trigger] mode_after_presses(mode, presses) == target
}

/// Pressing the switch key changes the mode every time, four presses bring
/// back the mode one started from, and on the way every scheme is reached.
pub proof fn switching_cycles_through_all_modes(mode: MovementMode)
    ensures
        mode_after_presses(mode, 1) != mode,
        mode_after_presses(mode, 2) != mode,
        mode_after_presses(mode, 3) != mode,
        mode_after_presses(mode, 4) == mode,
        forall|target: MovementMode| #[trigger] reached_within_cycle(mode, target),
{
    reveal_with_fuel(mode_after_presses, 5);
    assert forall|target: MovementMode| #[trigger] reached_within_cycle(mode, target) by {
        if mode_after_presses(mode, 0) == target {
        } else if mode_after_presses(mode, 1) == target {
        } else if mode_after_presses(mode, 2) == target {
        } else {
            assert(mode_after_presses(mode, 3) == target);
        }
    }
}

/// At most one control scheme moves the mantis in a frame, whatever the
/// input; in the Auto mode none does.
pub proof fn one_scheme_steers_at_a_time(
    options: WorldOptions,
    keys: HeldKeys,
    ground_point_found: bool,
    left_pressed: bool,
)
    ensures
        (if keyboard_stride(options, keys) is Some { 1int } else { 0 }) + (if mouse_walks(
            options,
            ground_point_found,
            left_pressed,
        ) { 1int } else { 0 }) + (if legacy_drive(options, keys) is Some { 1int } else { 0 })
            <= 1,
        options.movement_mode == MovementMode::Auto ==> keyboard_stride(options, keys) is None
            && !mouse_walks(options, ground_point_found, left_pressed) && legacy_drive(
            options,
            keys,
        ) is None,
{
}

} // verus!
