use nmosh::bindings::{MidiBinding, MidiBindings, MidiControl, MidiEvent, MidiSource};
use nmosh::midi::{select_port_index, should_reset_effects, RawMidiState, PITCH_BEND_CENTER};

#[test]
fn default_state_is_idle() {
    let state = RawMidiState::default();
    assert!(state.cc.iter().all(|v| *v == 0));
    assert!(state.notes.iter().all(|v| *v == 0));
    assert_eq!(state.pitch_bend, PITCH_BEND_CENTER);
    assert_eq!(state.last_pitch, 64);
    assert_eq!(state.last_event, None);
    assert_eq!(state.trigger_count, 0);
}

#[test]
fn note_on_holds_note_and_records_event() {
    let mut state = RawMidiState::default();
    state.apply_message(&[0x95, 60, 100]);
    assert_eq!(state.notes[60], 100);
    assert_eq!(state.last_pitch, 60);
    assert_eq!(state.trigger_count, 1);
    assert_eq!(
        state.last_event,
        Some(MidiEvent { source: MidiSource::Note, number: 60, value: 100, counter: 1 })
    );
    state.apply_message(&[0x80, 60]);
    assert_eq!(state.notes[60], 0);
    assert_eq!(state.event_counter, 1);
}

#[test]
fn note_on_with_zero_velocity_releases() {
    let mut state = RawMidiState::default();
    state.apply_message(&[0x90, 10, 50]);
    state.apply_message(&[0x90, 10, 0]);
    assert_eq!(state.notes[10], 0);
    assert_eq!(state.trigger_count, 1);
    assert_eq!(state.event_counter, 1);
}

#[test]
fn control_change_sets_value_and_records_event() {
    let mut state = RawMidiState::default();
    state.apply_message(&[0xB3, 7, 127]);
    assert_eq!(state.cc[7], 127);
    assert_eq!(
        state.last_event,
        Some(MidiEvent { source: MidiSource::ControlChange, number: 7, value: 127, counter: 1 })
    );
    state.apply_message(&[0xB0, 200, 200]);
    assert_eq!(state.cc[127], 127);
    assert_eq!(state.event_counter, 2);
    assert_eq!(state.trigger_count, 0);
}

#[test]
fn aftertouch_and_pitch_bend() {
    let mut state = RawMidiState::default();
    state.apply_message(&[0xA0, 60, 90]);
    assert_eq!(state.aftertouch, 90);
    state.apply_message(&[0xD1, 30]);
    assert_eq!(state.aftertouch, 30);
    state.apply_message(&[0xE0, 0, 0]);
    assert_eq!(state.pitch_bend, 0);
    state.apply_message(&[0xE0, 127, 127]);
    assert_eq!(state.pitch_bend, 16383);
    state.apply_message(&[0xE0, 0, 64]);
    assert_eq!(state.pitch_bend, 8192);
    state.apply_message(&[0xE0, 5, 1]);
    assert_eq!(state.pitch_bend, 133);
}

#[test]
fn short_empty_and_other_messages_change_nothing() {
    let mut state = RawMidiState::default();
    state.apply_message(&[]);
    state.apply_message(&[0x90, 60]);
    state.apply_message(&[0xB0, 1]);
    state.apply_message(&[0xF8]);
    state.apply_message(&[0xC0, 5]);
    state.apply_message(&[0x80]);
    assert!(state.notes.iter().all(|v| *v == 0));
    assert!(state.cc.iter().all(|v| *v == 0));
    assert_eq!(state.event_counter, 0);
    assert_eq!(state.last_event, None);
}

#[test]
fn counters_wrap() {
    let mut state = RawMidiState::default();
    state.event_counter = u64::MAX;
    state.trigger_count = u64::MAX;
    state.apply_message(&[0x90, 1, 1]);
    assert_eq!(state.event_counter, 0);
    assert_eq!(state.trigger_count, 0);
    assert_eq!(state.last_event.unwrap().counter, 0);
}

#[test]
fn reset_clears_bound_controllers_and_notes() {
    let mut state = RawMidiState::default();
    state.apply_message(&[0xB0, 1, 100]);
    state.apply_message(&[0xB0, 50, 100]);
    state.apply_message(&[0x90, 60, 100]);
    state.apply_message(&[0xD0, 100]);
    state.apply_message(&[0xE0, 0, 0]);
    let mut bindings = MidiBindings::default();
    bindings.set_binding(MidiControl::Spare, MidiBinding::cc(200));
    state.cc[127] = 9;
    let counter = state.event_counter;
    state.reset_effect_values(&bindings);
    assert_eq!(state.cc[1], 0);
    assert_eq!(state.cc[50], 100);
    assert_eq!(state.cc[127], 0);
    assert_eq!(state.notes[60], 0);
    assert_eq!(state.aftertouch, 0);
    assert_eq!(state.pitch_bend, PITCH_BEND_CENTER);
    assert_eq!(state.trigger_count, 2);
    assert_eq!(state.event_counter, counter);
    assert_eq!(state.active_notes(), 0);
}

#[test]
fn note_summary() {
    let mut state = RawMidiState::default();
    assert_eq!(state.max_velocity(), 0);
    assert_eq!(state.active_notes(), 0);
    state.apply_message(&[0x90, 60, 40]);
    state.apply_message(&[0x90, 64, 90]);
    state.apply_message(&[0x90, 67, 70]);
    assert_eq!(state.max_velocity(), 90);
    assert_eq!(state.active_notes(), 3);
}

#[test]
fn reset_trigger_fires_once_per_event() {
    let bindings = MidiBindings::default();
    let mut last = 0u64;
    let event = MidiEvent { source: MidiSource::Note, number: 60, value: 100, counter: 5 };
    assert!(should_reset_effects(&bindings, Some(event), &mut last));
    assert_eq!(last, 5);
    assert!(!should_reset_effects(&bindings, Some(event), &mut last));
    assert!(!should_reset_effects(&bindings, None, &mut last));
}

#[test]
fn reset_trigger_needs_strength_and_source() {
    let bindings = MidiBindings::default();
    let mut last = 0u64;
    let weak = MidiEvent { source: MidiSource::Note, number: 60, value: 6, counter: 1 };
    assert!(!should_reset_effects(&bindings, Some(weak), &mut last));
    assert_eq!(last, 0);
    let other = MidiEvent { source: MidiSource::ControlChange, number: 60, value: 100, counter: 2 };
    assert!(!should_reset_effects(&bindings, Some(other), &mut last));
    let enough = MidiEvent { source: MidiSource::Note, number: 60, value: 7, counter: 3 };
    assert!(should_reset_effects(&bindings, Some(enough), &mut last));
    assert_eq!(last, 3);
}

#[test]
fn port_selection() {
    let names = vec!["Midi Through".to_string(), "Launchkey MK3".to_string(), "launch pad".to_string()];
    assert_eq!(select_port_index(&names, None), 0);
    assert_eq!(select_port_index(&names, Some("LAUNCH")), 1);
    assert_eq!(select_port_index(&names, Some("pad")), 2);
    assert_eq!(select_port_index(&names, Some("missing")), 0);
    assert_eq!(select_port_index(&names, Some("")), 0);
}
