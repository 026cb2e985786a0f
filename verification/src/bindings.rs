//! The MIDI binding model: which controller or note drives which visual
//! parameter, and the camera and aspect modes of the view.

use vstd::prelude::*;

use crate::text::{decimal, push_decimal_u8};

verus! {

/// The camera behaviour of the 3D view.
#[derive(Clone, Copy, Debug, PartialEq, Eq, Structural)]
pub enum CameraMode {
    Free,
    FixedPlane,
}

/// The other camera mode.
pub open spec fn other_camera(mode: CameraMode) -> CameraMode {
    match mode {
        CameraMode::Free => CameraMode::FixedPlane,
        CameraMode::FixedPlane => CameraMode::Free,
    }
}

impl CameraMode {
    /// Switches between the free and the fixed camera.
    pub fn toggled(self) -> (r: Self)
        ensures
            r == other_camera(self),
    {
        match self {
            CameraMode::Free => CameraMode::FixedPlane,
            CameraMode::FixedPlane => CameraMode::Free,
        }
    }
}

/// How the incoming frame is fitted into the window.
#[derive(Clone, Copy, Debug, PartialEq, Eq, Structural)]
pub enum AspectMode {
    Source,
    FourThree,
}

/// The kind of MIDI message a binding listens to.
#[derive(Clone, Copy, Debug, PartialEq, Eq, Structural)]
pub enum MidiSource {
    Unassigned,
    ControlChange,
    Note,
}

impl Default for MidiSource {
    fn default() -> (r: Self)
        ensures
            r == MidiSource::Unassigned,
    {
        MidiSource::Unassigned
    }
}

/// A MIDI source (controller or note) and its number.
#[derive(Clone, Copy, Debug, PartialEq, Eq, Structural)]
pub struct MidiBinding {
    pub source: MidiSource,
    pub number: u8,
}

/// The unassigned binding.
pub open spec fn unassigned() -> MidiBinding {
    MidiBinding { source: MidiSource::Unassigned, number: 0 }
}

/// A binding is in use when it names a controller or a note.
pub open spec fn in_use(b: MidiBinding) -> bool {
    b.source != MidiSource::Unassigned
}

/// The text shown for a binding: `unassigned`, `CC <n>` or `Note <n>`.
pub open spec fn binding_label(b: MidiBinding) -> Seq<char> {
    match b.source {
        MidiSource::Unassigned => seq!['u', 'n', 'a', 's', 's', 'i', 'g', 'n', 'e', 'd'],
        MidiSource::ControlChange => seq!['C', 'C', ' '] + decimal(b.number as nat),
        MidiSource::Note => seq!['N', 'o', 't', 'e', ' '] + decimal(b.number as nat),
    }
}

/// The slot of a 128-entry table that a MIDI number addresses (numbers
/// above 127 fall on the last slot).
pub open spec fn slot(number: u8) -> int {
    if number > 127 { 127 } else { number as int }
}

impl MidiBinding {
    /// The unassigned binding.
    pub fn none() -> (r: Self)
        ensures
            r == unassigned(),
    {
        MidiBinding { source: MidiSource::Unassigned, number: 0 }
    }

    /// A binding to control-change controller `number`.
    pub fn cc(number: u8) -> (r: Self)
        ensures
            r == (MidiBinding { source: MidiSource::ControlChange, number }),
    {
        MidiBinding { source: MidiSource::ControlChange, number }
    }

    /// A binding to note `number`.
    pub fn note(number: u8) -> (r: Self)
        ensures
            r == (MidiBinding { source: MidiSource::Note, number }),
    {
        MidiBinding { source: MidiSource::Note, number }
    }

    /// The text shown for this binding in the mapping panel.
    pub fn label(self) -> (r: String)
        ensures
            r@ == binding_label(self),
    {
        match self.source {
            MidiSource::Unassigned => {
                proof { reveal_strlit("unassigned"); }
                String::from_str("unassigned")
            },
            MidiSource::ControlChange => {
                proof { reveal_strlit("CC "); }
                let mut s = String::from_str("CC ");
                push_decimal_u8(&mut s, self.number);
                s
            },
            MidiSource::Note => {
                proof { reveal_strlit("Note "); }
                let mut s = String::from_str("Note ");
                push_decimal_u8(&mut s, self.number);
                s
            },
        }
    }

    /// The controller value that this binding reads: the entry of `cc` for a
    /// control-change binding, and `absent` (zero) for a note or an unassigned
    /// binding.
    pub fn value_from<T: Copy>(self, cc: &[T; 128], absent: T) -> (r: T)
        ensures
            r == (if self.source == MidiSource::ControlChange {
                cc@[slot(self.number)]
            } else {
                absent
            }),
    {
        match self.source {
            MidiSource::ControlChange => {
                let i: usize = if self.number > 127 { 127 } else { self.number as usize };
                cc[i]
            },
            _ => absent,
        }
    }

    /// The value that this binding reads from the controller table `cc` or the
    /// note table `notes`; `absent` (zero) when it is unassigned.
    pub fn value_from_sources<T: Copy>(self, cc: &[T; 128], notes: &[T; 128], absent: T) -> (r: T)
        ensures
            r == (match self.source {
                MidiSource::ControlChange => cc@[slot(self.number)],
                MidiSource::Note => notes@[slot(self.number)],
                MidiSource::Unassigned => absent,
            }),
    {
        let i: usize = if self.number > 127 { 127 } else { self.number as usize };
        match self.source {
            MidiSource::ControlChange => cc[i],
            MidiSource::Note => notes[i],
            MidiSource::Unassigned => absent,
        }
    }

    /// Whether `event` comes from the source this binding listens to.
    pub fn matches(self, event: MidiEvent) -> (r: bool)
        ensures
            r == (self.source == event.source && self.number == event.number),
    {
        self.source == event.source && self.number == event.number
    }
}

impl Default for MidiBinding {
    fn default() -> (r: Self)
        ensures
            r == unassigned(),
    {
        MidiBinding::none()
    }
}

/// A recorded MIDI event: a note-on or a control change, with its 7-bit value
/// (`value / 127` is the normalized value) and the running event counter.
#[derive(Clone, Copy, Debug, PartialEq, Eq, Structural)]
pub struct MidiEvent {
    pub source: MidiSource,
    pub number: u8,
    pub value: u8,
    pub counter: u64,
}

impl MidiEvent {
    /// The binding that listens to this event's source.
    pub open spec fn as_binding_spec(self) -> MidiBinding {
        MidiBinding { source: self.source, number: self.number }
    }

    /// The binding that listens to this event's source.
    pub fn as_binding(self) -> (r: MidiBinding)
        ensures
            r == self.as_binding_spec(),
    {
        MidiBinding { source: self.source, number: self.number }
    }
}

/// The number of assignable visual parameters.
pub const MIDI_CONTROL_COUNT: usize = 20;

/// An assignable visual parameter.
#[derive(Clone, Copy, Debug, PartialEq, Eq, Structural)]
pub enum MidiControl {
    Warp,
    Chroma,
    Brightness,
    Hue,
    Feedback,
    Glitch,
    Scanlines,
    Kaleidoscope,
    Depth,
    Rotation,
    Pixelate,
    Edge,
    Tunnel,
    Invert,
    Zoom,
    Cube,
    Flash,
    ChromaTolerance,
    ChromaSoftness,
    Spare,
}

/// The position of a parameter in the binding table (declaration order).
pub open spec fn control_index(c: MidiControl) -> int {
    match c {
        MidiControl::Warp => 0,
        MidiControl::Chroma => 1,
        MidiControl::Brightness => 2,
        MidiControl::Hue => 3,
        MidiControl::Feedback => 4,
        MidiControl::Glitch => 5,
        MidiControl::Scanlines => 6,
        MidiControl::Kaleidoscope => 7,
        MidiControl::Depth => 8,
        MidiControl::Rotation => 9,
        MidiControl::Pixelate => 10,
        MidiControl::Edge => 11,
        MidiControl::Tunnel => 12,
        MidiControl::Invert => 13,
        MidiControl::Zoom => 14,
        MidiControl::Cube => 15,
        MidiControl::Flash => 16,
        MidiControl::ChromaTolerance => 17,
        MidiControl::ChromaSoftness => 18,
        MidiControl::Spare => 19,
    }
}

/// The parameter at position `i` of the binding table.
pub open spec fn control_at(i: int) -> MidiControl {
    if i == 0 {
        MidiControl::Warp
    } else if i == 1 {
        MidiControl::Chroma
    } else if i == 2 {
        MidiControl::Brightness
    } else if i == 3 {
        MidiControl::Hue
    } else if i == 4 {
        MidiControl::Feedback
    } else if i == 5 {
        MidiControl::Glitch
    } else if i == 6 {
        MidiControl::Scanlines
    } else if i == 7 {
        MidiControl::Kaleidoscope
    } else if i == 8 {
        MidiControl::Depth
    } else if i == 9 {
        MidiControl::Rotation
    } else if i == 10 {
        MidiControl::Pixelate
    } else if i == 11 {
        MidiControl::Edge
    } else if i == 12 {
        MidiControl::Tunnel
    } else if i == 13 {
        MidiControl::Invert
    } else if i == 14 {
        MidiControl::Zoom
    } else if i == 15 {
        MidiControl::Cube
    } else if i == 16 {
        MidiControl::Flash
    } else if i == 17 {
        MidiControl::ChromaTolerance
    } else if i == 18 {
        MidiControl::ChromaSoftness
    } else {
        MidiControl::Spare
    }
}

/// The label of a parameter in the mapping panel.
pub open spec fn control_label(c: MidiControl) -> Seq<char> {
    match c {
        MidiControl::Warp => "Warp / swirl"@,
        MidiControl::Chroma => "Chromatic split"@,
        MidiControl::Brightness => "Brightness"@,
        MidiControl::Hue => "Hue rotation"@,
        MidiControl::Feedback => "Feedback"@,
        MidiControl::Glitch => "Glitch"@,
        MidiControl::Scanlines => "Scanlines"@,
        MidiControl::Kaleidoscope => "Kaleidoscope"@,
        MidiControl::Depth => "3D depth"@,
        MidiControl::Rotation => "3D rotation"@,
        MidiControl::Pixelate => "Pixelation"@,
        MidiControl::Edge => "Edge enhancement"@,
        MidiControl::Tunnel => "Tunnel"@,
        MidiControl::Invert => "Invert / solarize"@,
        MidiControl::Zoom => "Zoom"@,
        MidiControl::Cube => "Cube morph"@,
        MidiControl::Flash => "White flash / strobe"@,
        MidiControl::ChromaTolerance => "Chroma tolerance"@,
        MidiControl::ChromaSoftness => "Chroma softness"@,
        MidiControl::Spare => "Spare"@,
    }
}

/// Every position of the table holds exactly one parameter, and each
/// parameter sits at its own position.
pub proof fn lemma_control_index_bijective()
    ensures
        forall|c: MidiControl| 0 <= #[trigger] control_index(c) < MIDI_CONTROL_COUNT,
        forall|c: MidiControl| #[trigger] control_at(control_index(c)) == c,
        forall|i: int| 0 <= i < MIDI_CONTROL_COUNT ==> #[trigger] control_index(control_at(i)) == i,
{
}

impl MidiControl {
    /// The position of this parameter in the binding table.
    pub fn index(self) -> (r: usize)
        ensures
            r == control_index(self),
            r < MIDI_CONTROL_COUNT,
    {
        match self {
            MidiControl::Warp => 0,
            MidiControl::Chroma => 1,
            MidiControl::Brightness => 2,
            MidiControl::Hue => 3,
            MidiControl::Feedback => 4,
            MidiControl::Glitch => 5,
            MidiControl::Scanlines => 6,
            MidiControl::Kaleidoscope => 7,
            MidiControl::Depth => 8,
            MidiControl::Rotation => 9,
            MidiControl::Pixelate => 10,
            MidiControl::Edge => 11,
            MidiControl::Tunnel => 12,
            MidiControl::Invert => 13,
            MidiControl::Zoom => 14,
            MidiControl::Cube => 15,
            MidiControl::Flash => 16,
            MidiControl::ChromaTolerance => 17,
            MidiControl::ChromaSoftness => 18,
            MidiControl::Spare => 19,
        }
    }

    /// The parameter at position `i` of the binding table, in declaration
    /// order; `None` past the last one.
    pub fn from_index(i: usize) -> (r: Option<Self>)
        ensures
            r == (if i < MIDI_CONTROL_COUNT { Some(control_at(i as int)) } else { None::<MidiControl> }),
    {
        if i == 0 {
            Some(MidiControl::Warp)
        } else if i == 1 {
            Some(MidiControl::Chroma)
        } else if i == 2 {
            Some(MidiControl::Brightness)
        } else if i == 3 {
            Some(MidiControl::Hue)
        } else if i == 4 {
            Some(MidiControl::Feedback)
        } else if i == 5 {
            Some(MidiControl::Glitch)
        } else if i == 6 {
            Some(MidiControl::Scanlines)
        } else if i == 7 {
            Some(MidiControl::Kaleidoscope)
        } else if i == 8 {
            Some(MidiControl::Depth)
        } else if i == 9 {
            Some(MidiControl::Rotation)
        } else if i == 10 {
            Some(MidiControl::Pixelate)
        } else if i == 11 {
            Some(MidiControl::Edge)
        } else if i == 12 {
            Some(MidiControl::Tunnel)
        } else if i == 13 {
            Some(MidiControl::Invert)
        } else if i == 14 {
            Some(MidiControl::Zoom)
        } else if i == 15 {
            Some(MidiControl::Cube)
        } else if i == 16 {
            Some(MidiControl::Flash)
        } else if i == 17 {
            Some(MidiControl::ChromaTolerance)
        } else if i == 18 {
            Some(MidiControl::ChromaSoftness)
        } else if i == 19 {
            Some(MidiControl::Spare)
        } else {
            None
        }
    }

    /// The label of this parameter in the mapping panel.
    pub fn label(self) -> (r: &'static str)
        ensures
            r@ == control_label(self),
    {
        match self {
            MidiControl::Warp => "Warp / swirl",
            MidiControl::Chroma => "Chromatic split",
            MidiControl::Brightness => "Brightness",
            MidiControl::Hue => "Hue rotation",
            MidiControl::Feedback => "Feedback",
            MidiControl::Glitch => "Glitch",
            MidiControl::Scanlines => "Scanlines",
            MidiControl::Kaleidoscope => "Kaleidoscope",
            MidiControl::Depth => "3D depth",
            MidiControl::Rotation => "3D rotation",
            MidiControl::Pixelate => "Pixelation",
            MidiControl::Edge => "Edge enhancement",
            MidiControl::Tunnel => "Tunnel",
            MidiControl::Invert => "Invert / solarize",
            MidiControl::Zoom => "Zoom",
            MidiControl::Cube => "Cube morph",
            MidiControl::Flash => "White flash / strobe",
            MidiControl::ChromaTolerance => "Chroma tolerance",
            MidiControl::ChromaSoftness => "Chroma softness",
            MidiControl::Spare => "Spare",
        }
    }
}

/// Something a MIDI source can be assigned to: a visual parameter or the
/// effect-reset trigger.
#[derive(Clone, Copy, Debug, PartialEq, Eq, Structural)]
pub enum LearnTarget {
    Control(MidiControl),
    ResetEffects,
}

/// The label of a learn target in the mapping panel.
pub open spec fn learn_target_label_spec(t: LearnTarget) -> Seq<char> {
    match t {
        LearnTarget::Control(c) => control_label(c),
        LearnTarget::ResetEffects => "Reset effects"@,
    }
}

/// The label of a learn target in the mapping panel.
pub fn learn_target_label(target: LearnTarget) -> (r: &'static str)
    ensures
        r@ == learn_target_label_spec(target),
{
    match target {
        LearnTarget::Control(control) => control.label(),
        LearnTarget::ResetEffects => "Reset effects",
    }
}

/// The binding of every parameter and of the effect-reset trigger.
#[derive(Clone, Copy, Debug, PartialEq, Eq)]
pub struct MidiBindings {
    controls: [MidiBinding; MIDI_CONTROL_COUNT],
    pub reset_effects: MidiBinding,
}

impl MidiBindings {
    /// The binding of a target.
    pub closed spec fn binding_of(self, target: LearnTarget) -> MidiBinding {
        match target {
            LearnTarget::Control(c) => self.controls@[control_index(c)],
            LearnTarget::ResetEffects => self.reset_effects,
        }
    }

    /// No MIDI source is bound to two targets.
    pub open spec fn is_duplicate_free(self) -> bool {
        forall|t1: LearnTarget, t2: LearnTarget|
            t1 != t2 && in_use(#[trigger] self.binding_of(t1)) ==> self.binding_of(t1)
                != #[trigger] self.binding_of(t2)
    }

    /// The binding of the effect-reset trigger (the `reset_effects` field).
    pub fn reset_binding(&self) -> (r: MidiBinding)
        ensures
            r == self.binding_of(LearnTarget::ResetEffects),
    {
        self.reset_effects
    }

    /// The binding of a parameter.
    pub fn binding(self, control: MidiControl) -> (r: MidiBinding)
        ensures
            r == self.binding_of(LearnTarget::Control(control)),
    {
        self.controls[control.index()]
    }

    /// The bindings of all parameters, by table position.
    pub fn bindings(&self) -> (r: &[MidiBinding; MIDI_CONTROL_COUNT])
        ensures
            forall|i: int|
                0 <= i < MIDI_CONTROL_COUNT ==> #[trigger] r@[i] == self.binding_of(
                    LearnTarget::Control(control_at(i)),
                ),
    {
        proof {
            assert forall|i: int| 0 <= i < MIDI_CONTROL_COUNT implies #[trigger] self.controls@[i]
                == self.binding_of(LearnTarget::Control(control_at(i))) by {
                assert(control_index(control_at(i)) == i);
            }
        }
        &self.controls
    }

    /// Assigns `binding` to a parameter; every other target keeps its binding.
    pub fn set_binding(&mut self, control: MidiControl, binding: MidiBinding)
        ensures
            forall|t: LearnTarget|
                #[trigger] final(self).binding_of(t) == (if t == LearnTarget::Control(control) {
                    binding
                } else {
                    old(self).binding_of(t)
                }),
    {
        let i = control.index();
        self.controls[i] = binding;
        proof {
            assert forall|t: LearnTarget|
                #[trigger] self.binding_of(t) == (if t == LearnTarget::Control(control) {
                    binding
                } else {
                    old(self).binding_of(t)
                }) by {
                if let LearnTarget::Control(c) = t {
                    if c != control {
                        assert(control_index(c) != control_index(control));
                    }
                }
            }
        }
    }
}

/// The default mapping of a target (see the configuration guide).
pub open spec fn default_binding(t: LearnTarget) -> MidiBinding {
    match t {
        LearnTarget::ResetEffects => MidiBinding { source: MidiSource::Note, number: 60 },
        LearnTarget::Control(c) => MidiBinding {
            source: MidiSource::ControlChange,
            number: match c {
                MidiControl::Warp => 1,
                MidiControl::Chroma => 2,
                MidiControl::Brightness => 7,
                MidiControl::Hue => 10,
                MidiControl::Feedback => 11,
                MidiControl::Glitch => 12,
                MidiControl::Scanlines => 13,
                MidiControl::Kaleidoscope => 14,
                MidiControl::Depth => 16,
                MidiControl::Rotation => 17,
                MidiControl::Pixelate => 18,
                MidiControl::Edge => 19,
                MidiControl::Tunnel => 20,
                MidiControl::Invert => 21,
                MidiControl::Zoom => 74,
                MidiControl::Cube => 71,
                MidiControl::Flash => 72,
                MidiControl::ChromaTolerance => 73,
                MidiControl::ChromaSoftness => 75,
                MidiControl::Spare => 78,
            },
        },
    }
}

impl Default for MidiBindings {
    fn default() -> (r: Self)
        ensures
            forall|t: LearnTarget| #[trigger] r.binding_of(t) == default_binding(t),
    {
        let r = MidiBindings {
            controls: [
                MidiBinding::cc(1),
                MidiBinding::cc(2),
                MidiBinding::cc(7),
                MidiBinding::cc(10),
                MidiBinding::cc(11),
                MidiBinding::cc(12),
                MidiBinding::cc(13),
                MidiBinding::cc(14),
                MidiBinding::cc(16),
                MidiBinding::cc(17),
                MidiBinding::cc(18),
                MidiBinding::cc(19),
                MidiBinding::cc(20),
                MidiBinding::cc(21),
                MidiBinding::cc(74),
                MidiBinding::cc(71),
                MidiBinding::cc(72),
                MidiBinding::cc(73),
                MidiBinding::cc(75),
                MidiBinding::cc(78),
            ],
            reset_effects: MidiBinding::note(60),
        };
        r
    }
}

/// `after` is the result of assigning `binding` to `target` in `before`,
/// taking the source away from every other target (see
/// `assign_unique_binding`).
pub open spec fn assigned(
    before: MidiBindings,
    after: MidiBindings,
    target: LearnTarget,
    binding: MidiBinding,
) -> bool {
    &&& after.binding_of(target) == binding
    &&& forall|t: LearnTarget|
        t != target ==> #[trigger] after.binding_of(t) == (if in_use(binding)
            && before.binding_of(t) == binding {
            unassigned()
        } else {
            before.binding_of(t)
        })
}

/// Assigns `binding` to `target`; when `binding` names a MIDI source, that
/// source is first taken away from every other target, so that a source
/// drives at most one target.
pub fn assign_unique_binding(bindings: &mut MidiBindings, target: LearnTarget, binding: MidiBinding)
    ensures
        assigned(*old(bindings), *final(bindings), target, binding),
{
    let ghost start = *bindings;
    if binding.source != MidiSource::Unassigned {
        let mut i: usize = 0;
        while i < MIDI_CONTROL_COUNT
            invariant
                i <= MIDI_CONTROL_COUNT,
                in_use(binding),
                bindings.reset_effects == start.reset_effects,
                forall|j: int|
                    0 <= j < MIDI_CONTROL_COUNT ==> #[trigger] bindings.controls@[j] == (if j < i
                        && start.controls@[j] == binding {
                        unassigned()
                    } else {
                        start.controls@[j]
                    }),
            decreases MIDI_CONTROL_COUNT - i,
        {
            if bindings.controls[i] == binding {
                bindings.controls[i] = MidiBinding::none();
            }
            i = i + 1;
        }
        if bindings.reset_effects == binding {
            bindings.reset_effects = MidiBinding::none();
        }
    }
    match target {
        LearnTarget::Control(control) => {
            let k = control.index();
            bindings.controls[k] = binding;
        },
        LearnTarget::ResetEffects => {
            bindings.reset_effects = binding;
        },
    }
    proof {
        assert forall|t: LearnTarget| t != target implies #[trigger] bindings.binding_of(t) == (if in_use(binding)
            && start.binding_of(t) == binding {
            unassigned()
        } else {
            start.binding_of(t)
        }) by {
            if let LearnTarget::Control(c) = t {
                if let LearnTarget::Control(d) = target {
                    assert(control_index(c) != control_index(d));
                }
            }
        }
    }
}

/// Learning keeps the mapping free of duplicates: when no source drove two
/// targets before an assignment, none does after it.
pub proof fn lemma_assign_keeps_duplicate_free(
    before: MidiBindings,
    after: MidiBindings,
    target: LearnTarget,
    binding: MidiBinding,
)
    requires
        before.is_duplicate_free(),
        assigned(before, after, target, binding),
    ensures
        after.is_duplicate_free(),
        in_use(binding) ==> forall|t: LearnTarget|
            t != target ==> #[trigger] after.binding_of(t) != binding,
{
}

/// The default mapping assigns no MIDI source to two targets.
pub proof fn lemma_default_is_duplicate_free(bindings: MidiBindings)
    requires
        forall|t: LearnTarget| #[trigger] bindings.binding_of(t) == default_binding(t),
    ensures
        bindings.is_duplicate_free(),
{
    assert forall|t1: LearnTarget, t2: LearnTarget|
        t1 != t2 && in_use(#[trigger] bindings.binding_of(t1)) implies bindings.binding_of(t1)
        != #[trigger] bindings.binding_of(t2) by {
        assert(bindings.binding_of(t1) == default_binding(t1));
        assert(bindings.binding_of(t2) == default_binding(t2));
    }
}

/// Toggling the camera twice gives back the camera one started with.
pub proof fn lemma_toggle_involutive(mode: CameraMode)
    ensures
        other_camera(other_camera(mode)) == mode,
        other_camera(mode) != mode,
{
}

} // verus!
