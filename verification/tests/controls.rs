use mantis::controls::{
    keyboard_controls, legacy_controls, mouse_controls, next_movement_mode, switch_movement_mode,
    HeldKeys, LegacyDrive, MovementMode, Stride, WorldOptions,
};

fn keys(w: bool, a: bool, s: bool, d: bool) -> HeldKeys {
    HeldKeys { w, a, s, d }
}

fn options(mode: MovementMode) -> WorldOptions {
    WorldOptions { movement_mode: mode }
}

const ALL_MODES: [MovementMode; 4] =
    [MovementMode::Mouse, MovementMode::Keyboard, MovementMode::Auto, MovementMode::Legacy];

#[test]
fn next_mode_follows_the_cycle() {
    assert_eq!(next_movement_mode(MovementMode::Mouse), MovementMode::Keyboard);
    assert_eq!(next_movement_mode(MovementMode::Keyboard), MovementMode::Auto);
    assert_eq!(next_movement_mode(MovementMode::Auto), MovementMode::Legacy);
    assert_eq!(next_movement_mode(MovementMode::Legacy), MovementMode::Mouse);
}

#[test]
fn four_presses_return_to_the_start_and_visit_every_mode() {
    for start in ALL_MODES {
        let mut opts = options(start);
        let mut seen = vec![start];
        for _ in 0..4 {
            switch_movement_mode(&mut opts, true);
            seen.push(opts.movement_mode);
        }
        assert_eq!(opts.movement_mode, start);
        for mode in ALL_MODES {
            assert!(seen[..4].contains(&mode));
        }
        for k in 1..4 {
            assert_ne!(seen[k], start);
        }
    }
}

#[test]
fn no_press_keeps_the_mode() {
    for start in ALL_MODES {
        let mut opts = options(start);
        switch_movement_mode(&mut opts, false);
        assert_eq!(opts.movement_mode, start);
    }
}

#[test]
fn keyboard_scheme_steers_only_when_active() {
    assert_eq!(keyboard_controls(&options(MovementMode::Legacy), &keys(true, false, false, false)), None);
    assert_eq!(keyboard_controls(&options(MovementMode::Mouse), &keys(true, true, true, true)), None);
    assert_eq!(
        keyboard_controls(&options(MovementMode::Keyboard), &keys(false, false, false, false)),
        Some(Stride { x: 0, z: 0 })
    );
}

#[test]
fn keyboard_directions_and_priorities() {
    let kb = options(MovementMode::Keyboard);
    assert_eq!(keyboard_controls(&kb, &keys(true, false, false, false)), Some(Stride { x: 0, z: 1 }));
    assert_eq!(keyboard_controls(&kb, &keys(false, false, true, false)), Some(Stride { x: 0, z: -1 }));
    assert_eq!(keyboard_controls(&kb, &keys(false, true, false, false)), Some(Stride { x: -1, z: 0 }));
    assert_eq!(keyboard_controls(&kb, &keys(false, false, false, true)), Some(Stride { x: 1, z: 0 }));
    // W overrides S, A overrides D.
    assert_eq!(keyboard_controls(&kb, &keys(true, true, true, true)), Some(Stride { x: -1, z: 1 }));
    assert_eq!(keyboard_controls(&kb, &keys(false, false, true, true)), Some(Stride { x: 1, z: -1 }));
}

#[test]
fn mouse_scheme_needs_mode_ground_point_and_button() {
    let mouse = options(MovementMode::Mouse);
    assert!(mouse_controls(&mouse, true, true));
    assert!(!mouse_controls(&mouse, false, true));
    assert!(!mouse_controls(&mouse, true, false));
    assert!(!mouse_controls(&options(MovementMode::Keyboard), true, true));
}

#[test]
fn legacy_turns_and_drives() {
    let legacy = options(MovementMode::Legacy);
    assert_eq!(legacy_controls(&legacy, &keys(false, false, false, true)), Some(LegacyDrive { turn: -1, advance: 0 }));
    assert_eq!(legacy_controls(&legacy, &keys(false, true, false, false)), Some(LegacyDrive { turn: 1, advance: 0 }));
    assert_eq!(legacy_controls(&legacy, &keys(true, false, false, false)), Some(LegacyDrive { turn: 0, advance: 1 }));
    assert_eq!(legacy_controls(&legacy, &keys(false, false, true, false)), Some(LegacyDrive { turn: 0, advance: -1 }));
    // D overrides A, W overrides S.
    assert_eq!(legacy_controls(&legacy, &keys(true, true, true, true)), Some(LegacyDrive { turn: -1, advance: 1 }));
    assert_eq!(legacy_controls(&options(MovementMode::Auto), &keys(true, true, true, true)), None);
}

#[test]
fn at_most_one_scheme_moves_the_mantis() {
    for mode in ALL_MODES {
        let opts = options(mode);
        let held = keys(true, true, false, false);
        let active = keyboard_controls(&opts, &held).is_some() as u32
            + mouse_controls(&opts, true, true) as u32
            + legacy_controls(&opts, &held).is_some() as u32;
        if mode == MovementMode::Auto {
            assert_eq!(active, 0);
        } else {
            assert_eq!(active, 1);
        }
    }
}
