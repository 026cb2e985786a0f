use nmosh::bindings::{
    assign_unique_binding, learn_target_label, AspectMode, CameraMode, LearnTarget, MidiBinding,
    MidiBindings, MidiControl, MidiEvent, MidiSource, MIDI_CONTROL_COUNT,
};

fn all_targets() -> Vec<LearnTarget> {
    let mut targets: Vec<LearnTarget> = (0..MIDI_CONTROL_COUNT)
        .map(|i| LearnTarget::Control(MidiControl::from_index(i).unwrap()))
        .collect();
    targets.push(LearnTarget::ResetEffects);
    targets
}

fn binding_of(bindings: &MidiBindings, target: LearnTarget) -> MidiBinding {
    match target {
        LearnTarget::Control(control) => bindings.binding(control),
        LearnTarget::ResetEffects => bindings.reset_effects,
    }
}

fn is_duplicate_free(bindings: &MidiBindings) -> bool {
    let targets = all_targets();
    for (i, a) in targets.iter().enumerate() {
        for (j, b) in targets.iter().enumerate() {
            let x = binding_of(bindings, *a);
            if i != j && x.source != MidiSource::Unassigned && x == binding_of(bindings, *b) {
                return false;
            }
        }
    }
    true
}

#[test]
fn camera_toggle_switches_and_returns() {
    assert_eq!(CameraMode::Free.toggled(), CameraMode::FixedPlane);
    assert_eq!(CameraMode::FixedPlane.toggled(), CameraMode::Free);
    assert_eq!(CameraMode::Free.toggled().toggled(), CameraMode::Free);
    assert_ne!(AspectMode::Source, AspectMode::FourThree);
}

#[test]
fn binding_constructors() {
    assert_eq!(MidiBinding::none(), MidiBinding { source: MidiSource::Unassigned, number: 0 });
    assert_eq!(MidiBinding::cc(7), MidiBinding { source: MidiSource::ControlChange, number: 7 });
    assert_eq!(MidiBinding::note(60), MidiBinding { source: MidiSource::Note, number: 60 });
    assert_eq!(MidiBinding::default(), MidiBinding::none());
    assert_eq!(MidiSource::default(), MidiSource::Unassigned);
}

#[test]
fn binding_labels() {
    assert_eq!(MidiBinding::none().label(), "unassigned");
    assert_eq!(MidiBinding::cc(0).label(), "CC 0");
    assert_eq!(MidiBinding::cc(7).label(), "CC 7");
    assert_eq!(MidiBinding::cc(74).label(), "CC 74");
    assert_eq!(MidiBinding::cc(127).label(), "CC 127");
    assert_eq!(MidiBinding::note(60).label(), "Note 60");
    assert_eq!(MidiBinding::note(255).label(), "Note 255");
    assert_eq!(MidiBinding::note(100).label(), "Note 100");
    assert_eq!(MidiBinding::cc(10).label(), "CC 10");
}

#[test]
fn binding_reads_controller_or_note_value() {
    let mut cc = [0.0f32; 128];
    let mut notes = [0.0f32; 128];
    cc[7] = 0.5;
    cc[127] = 0.25;
    notes[60] = 1.0;
    assert_eq!(MidiBinding::cc(7).value_from(&cc, 0.0), 0.5);
    assert_eq!(MidiBinding::cc(200).value_from(&cc, 0.0), 0.25);
    assert_eq!(MidiBinding::note(60).value_from(&cc, 0.0), 0.0);
    assert_eq!(MidiBinding::none().value_from(&cc, 0.0), 0.0);
    assert_eq!(MidiBinding::note(60).value_from_sources(&cc, &notes, 0.0), 1.0);
    assert_eq!(MidiBinding::cc(7).value_from_sources(&cc, &notes, 0.0), 0.5);
    assert_eq!(MidiBinding::none().value_from_sources(&cc, &notes, 0.0), 0.0);
}

#[test]
fn binding_matches_event_source() {
    let event = MidiEvent { source: MidiSource::Note, number: 60, value: 100, counter: 3 };
    assert!(MidiBinding::note(60).matches(event));
    assert!(!MidiBinding::cc(60).matches(event));
    assert!(!MidiBinding::note(61).matches(event));
    assert_eq!(event.as_binding(), MidiBinding::note(60));
}

#[test]
fn control_positions_and_labels() {
    for i in 0..MIDI_CONTROL_COUNT {
        let control = MidiControl::from_index(i).unwrap();
        assert_eq!(control.index(), i);
    }
    assert_eq!(MidiControl::from_index(MIDI_CONTROL_COUNT), None);
    assert_eq!(MidiControl::Warp.label(), "Warp / swirl");
    assert_eq!(MidiControl::Depth.label(), "3D depth");
    assert_eq!(MidiControl::Spare.label(), "Spare");
    assert_eq!(MidiControl::Zoom.index(), 14);
    assert_eq!(learn_target_label(LearnTarget::ResetEffects), "Reset effects");
    assert_eq!(learn_target_label(LearnTarget::Control(MidiControl::Flash)), "White flash / strobe");
}

#[test]
fn default_mapping_matches_configuration_guide() {
    let bindings = MidiBindings::default();
    let expected: [(MidiControl, u8); 20] = [
        (MidiControl::Warp, 1),
        (MidiControl::Chroma, 2),
        (MidiControl::Brightness, 7),
        (MidiControl::Hue, 10),
        (MidiControl::Feedback, 11),
        (MidiControl::Glitch, 12),
        (MidiControl::Scanlines, 13),
        (MidiControl::Kaleidoscope, 14),
        (MidiControl::Depth, 16),
        (MidiControl::Rotation, 17),
        (MidiControl::Pixelate, 18),
        (MidiControl::Edge, 19),
        (MidiControl::Tunnel, 20),
        (MidiControl::Invert, 21),
        (MidiControl::Cube, 71),
        (MidiControl::Flash, 72),
        (MidiControl::ChromaTolerance, 73),
        (MidiControl::Zoom, 74),
        (MidiControl::ChromaSoftness, 75),
        (MidiControl::Spare, 78),
    ];
    for (control, number) in expected {
        assert_eq!(bindings.binding(control), MidiBinding::cc(number));
    }
    assert_eq!(bindings.reset_effects, MidiBinding::note(60));
    assert!(is_duplicate_free(&bindings));
    assert_eq!(bindings.bindings()[14], MidiBinding::cc(74));
}

#[test]
fn set_binding_changes_only_its_parameter() {
    let mut bindings = MidiBindings::default();
    bindings.set_binding(MidiControl::Hue, MidiBinding::note(40));
    assert_eq!(bindings.binding(MidiControl::Hue), MidiBinding::note(40));
    assert_eq!(bindings.binding(MidiControl::Warp), MidiBinding::cc(1));
    assert_eq!(bindings.reset_effects, MidiBinding::note(60));
}

#[test]
fn learning_a_used_source_moves_it() {
    let mut bindings = MidiBindings::default();
    assign_unique_binding(&mut bindings, LearnTarget::Control(MidiControl::Warp), MidiBinding::cc(7));
    assert_eq!(bindings.binding(MidiControl::Warp), MidiBinding::cc(7));
    assert_eq!(bindings.binding(MidiControl::Brightness), MidiBinding::none());
    assert_eq!(bindings.binding(MidiControl::Chroma), MidiBinding::cc(2));
    assert!(is_duplicate_free(&bindings));

    assign_unique_binding(&mut bindings, LearnTarget::Control(MidiControl::Flash), MidiBinding::note(60));
    assert_eq!(bindings.binding(MidiControl::Flash), MidiBinding::note(60));
    assert_eq!(bindings.reset_effects, MidiBinding::none());
    assert!(is_duplicate_free(&bindings));

    assign_unique_binding(&mut bindings, LearnTarget::ResetEffects, MidiBinding::cc(2));
    assert_eq!(bindings.reset_effects, MidiBinding::cc(2));
    assert_eq!(bindings.binding(MidiControl::Chroma), MidiBinding::none());
    assert!(is_duplicate_free(&bindings));
}

#[test]
fn clearing_a_binding_keeps_the_others() {
    let mut bindings = MidiBindings::default();
    bindings.set_binding(MidiControl::Spare, MidiBinding::none());
    assign_unique_binding(&mut bindings, LearnTarget::Control(MidiControl::Hue), MidiBinding::none());
    assert_eq!(bindings.binding(MidiControl::Hue), MidiBinding::none());
    assert_eq!(bindings.binding(MidiControl::Spare), MidiBinding::none());
    assert_eq!(bindings.binding(MidiControl::Warp), MidiBinding::cc(1));
}
