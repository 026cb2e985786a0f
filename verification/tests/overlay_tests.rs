use nmosh::bindings::{LearnTarget, MidiBinding, MidiBindings, MidiControl, MidiEvent, MidiSource};
use nmosh::keys::{key_command, KeyCommand, KeyInput, NamedKey};
use nmosh::bindings::CameraMode;
use nmosh::overlay::{non_empty, OverlayState, UiStatus};

#[test]
fn opening_and_closing() {
    let mut state = OverlayState::new();
    assert!(!state.is_open());
    assert!(state.toggle());
    assert!(state.is_open());
    assert!(!state.toggle());
    assert!(!state.is_open());
    state.close();
    assert!(!state.is_open());
}

#[test]
fn unsaved_changes_prompt_before_closing() {
    let mut state = OverlayState::new();
    state.toggle();
    state.dirty = true;
    state.close();
    assert!(state.is_open());
    assert!(state.save_prompt_open);
    state.cancel_prompt();
    assert!(state.is_open());
    assert!(!state.save_prompt_open);
    state.request_close();
    state.close_after_save();
    assert!(!state.is_open());
    assert!(!state.dirty);

    state.toggle();
    state.dirty = true;
    state.start_eyedropper();
    state.request_close();
    state.discard_and_close();
    assert!(!state.is_open());
    assert!(!state.eyedropper_active);
    assert!(!state.save_prompt_open);
}

#[test]
fn learning_takes_only_new_events() {
    let mut state = OverlayState::new();
    let mut bindings = MidiBindings::default();
    let old = MidiEvent { source: MidiSource::ControlChange, number: 40, value: 64, counter: 4 };
    state.start_learning(LearnTarget::Control(MidiControl::Warp), Some(old));
    assert_eq!(state.learn_started_after, 4);
    state.consume_learn_event(&mut bindings, Some(old));
    assert_eq!(bindings.binding(MidiControl::Warp), MidiBinding::cc(1));
    assert!(state.learn_target.is_some());

    let note = MidiEvent { source: MidiSource::Note, number: 50, value: 64, counter: 5 };
    state.consume_learn_event(&mut bindings, Some(note));
    assert_eq!(bindings.binding(MidiControl::Warp), MidiBinding::cc(1));

    let cc = MidiEvent { source: MidiSource::ControlChange, number: 7, value: 64, counter: 6 };
    state.consume_learn_event(&mut bindings, Some(cc));
    assert_eq!(bindings.binding(MidiControl::Warp), MidiBinding::cc(7));
    assert_eq!(bindings.binding(MidiControl::Brightness), MidiBinding::none());
    assert!(state.learn_target.is_none());
}

#[test]
fn flash_and_reset_learn_notes() {
    let mut state = OverlayState::new();
    let mut bindings = MidiBindings::default();
    state.start_learning(LearnTarget::Control(MidiControl::Flash), None);
    let note = MidiEvent { source: MidiSource::Note, number: 60, value: 64, counter: 1 };
    state.consume_learn_event(&mut bindings, Some(note));
    assert_eq!(bindings.binding(MidiControl::Flash), MidiBinding::note(60));
    assert_eq!(bindings.reset_effects, MidiBinding::none());

    state.start_learning(LearnTarget::ResetEffects, Some(note));
    let other = MidiEvent { source: MidiSource::Note, number: 61, value: 64, counter: 2 };
    state.consume_learn_event(&mut bindings, Some(other));
    assert_eq!(bindings.reset_effects, MidiBinding::note(61));
    state.cancel_learning();
    assert!(state.learn_target.is_none());
}

#[test]
fn eyedropper_samples_one_click() {
    let mut state = OverlayState::new();
    assert_eq!(state.consume_eyedropper_click(false, true, Some([1.0f32, 2.0])), None);
    state.start_eyedropper();
    assert_eq!(state.consume_eyedropper_click(true, true, Some([1.0f32, 2.0])), None);
    assert_eq!(state.consume_eyedropper_click(false, false, Some([1.0f32, 2.0])), None);
    assert!(state.eyedropper_active);
    assert_eq!(state.consume_eyedropper_click(false, true, Some([1.0f32, 2.0])), Some([1.0, 2.0]));
    assert!(!state.eyedropper_active);
    state.start_eyedropper();
    state.cancel_eyedropper();
    assert!(!state.eyedropper_active);
}

#[test]
fn text_fields_are_trimmed() {
    assert_eq!(non_empty("  OBS  ".to_string()), Some("OBS".to_string()));
    assert_eq!(non_empty("   ".to_string()), None);
    assert_eq!(non_empty(String::new()), None);
    let status = UiStatus { midi: "none", ndi: "waiting" };
    assert_eq!(status.midi, "none");
    assert_eq!(status.ndi, "waiting");
}

#[test]
fn keyboard_shortcuts() {
    assert_eq!(key_command(true, false, KeyInput::Character("O"), false, false), KeyCommand::ToggleOptions);
    assert_eq!(key_command(true, false, KeyInput::Character("c"), false, false), KeyCommand::ToggleCamera);
    assert_eq!(
        key_command(true, false, KeyInput::Character("1"), false, false),
        KeyCommand::SelectCamera(CameraMode::Free)
    );
    assert_eq!(
        key_command(true, false, KeyInput::Character("2"), false, false),
        KeyCommand::SelectCamera(CameraMode::FixedPlane)
    );
    assert_eq!(key_command(true, false, KeyInput::Character("F"), false, false), KeyCommand::ToggleFullscreen);
    assert_eq!(key_command(true, false, KeyInput::Named(NamedKey::F11), false, false), KeyCommand::ToggleFullscreen);
    assert_eq!(key_command(true, false, KeyInput::Named(NamedKey::Escape), true, true), KeyCommand::CloseOptions);
    assert_eq!(key_command(true, false, KeyInput::Named(NamedKey::Escape), false, true), KeyCommand::LeaveFullscreen);
    assert_eq!(key_command(true, false, KeyInput::Named(NamedKey::Escape), false, false), KeyCommand::Exit);
    assert_eq!(key_command(false, false, KeyInput::Character("o"), false, false), KeyCommand::Nothing);
    assert_eq!(key_command(true, true, KeyInput::Character("o"), false, false), KeyCommand::Nothing);
    assert_eq!(key_command(true, false, KeyInput::Character("oo"), false, false), KeyCommand::Nothing);
    assert_eq!(key_command(true, false, KeyInput::Other, false, false), KeyCommand::Nothing);
}
