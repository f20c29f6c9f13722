use mon3tr_widget::anim::{AnimationState, TrackCommand};
use mon3tr_widget::config::{default_return_to_idle, is_false, is_true, Action, AnimationItem, Config};
use mon3tr_widget::sequencer::{InputState, KEY_EQUALS, MOD_CTRL};

const KEY_K: u32 = 75;

fn wave_config() -> Config {
    Config {
        actions: vec![Action {
            trigger: KEY_K,
            sequence: vec![
                AnimationItem {
                    name: String::from("Wave"),
                    loop_: false,
                    length: Some(1.2f32.to_bits()),
                },
                AnimationItem { name: String::from("Idle2"), loop_: true, length: None },
            ],
            return_to_idle: true,
        }],
        idle_animation: Some(String::from("Idle")),
    }
}

#[test]
fn trigger_issues_set_then_adds_with_previous_lengths() {
    // Pressing K issues: set_track(0, "Wave", false),
    // add_track(0, "Idle2", true, delay = 1.2) and, for return-to-idle,
    // add_track(0, "Idle", true, delay = 0.0) since "Idle2" has no length.
    let config = wave_config();
    let mut state = InputState::new();
    let mut anim = AnimationState::new();
    assert!(state.handle_key_down(KEY_K, &config, &mut anim));
    let expected = vec![
        TrackCommand::SetTrack { track: 0, name: String::from("Wave"), looping: false },
        TrackCommand::AddTrack {
            track: 0,
            name: String::from("Idle2"),
            looping: true,
            delay: 1.2f32.to_bits(),
        },
        TrackCommand::AddTrack {
            track: 0,
            name: String::from("Idle"),
            looping: true,
            delay: 0.0f32.to_bits(),
        },
    ];
    assert_eq!(anim.commands(), &expected);
}

#[test]
fn held_key_triggers_exactly_once() {
    // Key repeat without a release never re-triggers; a release-then-press
    // does.
    let config = wave_config();
    let mut state = InputState::new();
    let mut anim = AnimationState::new();
    assert!(state.handle_key_down(KEY_K, &config, &mut anim));
    assert_eq!(anim.commands().len(), 3);
    for _ in 0..5 {
        assert!(state.handle_key_down(KEY_K, &config, &mut anim));
    }
    assert_eq!(anim.commands().len(), 3);
    assert!(state.handle_key_up(KEY_K));
    assert!(state.handle_key_down(KEY_K, &config, &mut anim));
    assert_eq!(anim.commands().len(), 6);
}

#[test]
fn modifier_shortcut_bypasses_action_table() {
    let config = Config {
        actions: vec![Action {
            trigger: KEY_EQUALS,
            sequence: vec![AnimationItem { name: String::from("Wave"), loop_: false, length: None }],
            return_to_idle: false,
        }],
        idle_animation: None,
    };
    let mut state = InputState::new();
    let mut anim = AnimationState::new();
    assert!(state.handle_modifiers_changed(MOD_CTRL));
    assert!(state.handle_key_down(KEY_EQUALS, &config, &mut anim));
    assert!(anim.commands().is_empty());
    // Without the modifier the same key triggers its action.
    assert!(state.handle_key_up(KEY_EQUALS));
    assert!(state.handle_modifiers_changed(0));
    assert!(state.handle_key_down(KEY_EQUALS, &config, &mut anim));
    assert_eq!(anim.commands().len(), 1);
}

#[test]
fn unconfigured_key_issues_nothing() {
    let config = wave_config();
    let mut state = InputState::new();
    let mut anim = AnimationState::new();
    assert!(state.handle_key_down(99, &config, &mut anim));
    assert!(anim.commands().is_empty());
}

#[test]
fn key_up_reports_whether_key_was_held() {
    let mut state = InputState::new();
    let mut anim = AnimationState::new();
    let config = wave_config();
    assert!(!state.handle_key_up(KEY_K));
    state.handle_key_down(KEY_K, &config, &mut anim);
    assert!(state.handle_key_up(KEY_K));
    assert!(!state.handle_key_up(KEY_K));
}

#[test]
fn empty_sequence_still_returns_to_idle() {
    let config = Config {
        actions: vec![Action { trigger: KEY_K, sequence: vec![], return_to_idle: true }],
        idle_animation: Some(String::from("Idle")),
    };
    let mut state = InputState::new();
    let mut anim = AnimationState::new();
    state.handle_key_down(KEY_K, &config, &mut anim);
    assert_eq!(
        anim.commands(),
        &vec![TrackCommand::AddTrack {
            track: 0,
            name: String::from("Idle"),
            looping: true,
            delay: 0,
        }],
    );
}

#[test]
fn matching_actions_fire_in_table_order() {
    let config = Config {
        actions: vec![
            Action {
                trigger: KEY_K,
                sequence: vec![AnimationItem { name: String::from("A"), loop_: false, length: None }],
                return_to_idle: false,
            },
            Action {
                trigger: KEY_K,
                sequence: vec![AnimationItem { name: String::from("B"), loop_: true, length: None }],
                return_to_idle: false,
            },
        ],
        idle_animation: None,
    };
    let mut state = InputState::new();
    let mut anim = AnimationState::new();
    state.handle_key_down(KEY_K, &config, &mut anim);
    assert_eq!(
        anim.commands(),
        &vec![
            TrackCommand::SetTrack { track: 0, name: String::from("A"), looping: false },
            TrackCommand::SetTrack { track: 0, name: String::from("B"), looping: true },
        ],
    );
}

#[test]
fn take_commands_drains_the_queue() {
    let mut anim = AnimationState::new();
    anim.set_animation_by_name(0, "Walk", true);
    anim.add_animation_by_name(1, "Blink", false, 7);
    let drained = anim.take_commands();
    assert_eq!(drained.len(), 2);
    assert!(anim.commands().is_empty());
    assert_eq!(
        drained[1],
        TrackCommand::AddTrack { track: 1, name: String::from("Blink"), looping: false, delay: 7 },
    );
}

#[test]
fn opacity_setting_is_kept() {
    let mut state = InputState::new();
    assert_eq!(state.opacity(), 100);
    state.set_opacity(40);
    assert_eq!(state.opacity(), 40);
}

#[test]
fn serialisation_flag_helpers() {
    assert!(is_false(&false));
    assert!(!is_false(&true));
    assert!(is_true(&true));
    assert!(!is_true(&false));
    assert!(default_return_to_idle());
}
