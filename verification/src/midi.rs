//! The MIDI input state: what each incoming message does to the controller,
//! note, aftertouch and pitch-bend values, and the decisions taken on them.
//!
//! Every value is kept as the raw 7-bit (or, for pitch bend, 14-bit) number
//! that the message carried; the normalized value is `raw / 127` (pitch bend:
//! `(raw - 8192) / 8192`).

use vstd::prelude::*;

use crate::bindings::{
    control_at, slot, LearnTarget, MidiBindings, MidiEvent, MidiSource, MIDI_CONTROL_COUNT,
};
use crate::text::{contains_ci, find_first_containing, is_first_containing, names_view};

verus! {

/// Pitch-bend value of a centred wheel.
pub const PITCH_BEND_CENTER: u16 = 8192;

/// The smallest 7-bit value of an event that fires the effect reset
/// (`value / 127 >= 0.05`).
pub const MIN_RESET_VALUE: u8 = 7;

/// The raw state that MIDI messages update.
#[derive(Clone, Copy, Debug)]
pub struct RawMidiState {
    /// Last value of each controller.
    pub cc: [u8; 128],
    /// Velocity of each held note (0 when released).
    pub notes: [u8; 128],
    /// Last aftertouch pressure.
    pub aftertouch: u8,
    /// Last pitch-bend position (14 bits, centre 8192).
    pub pitch_bend: u16,
    /// Last note that was struck.
    pub last_pitch: u8,
    /// Number of recorded events (wrapping).
    pub event_counter: u64,
    /// The last note-on or control change.
    pub last_event: Option<MidiEvent>,
    /// Number of note strikes and effect resets (wrapping).
    pub trigger_count: u64,
}

/// The mathematical content of a `RawMidiState`.
pub struct MidiStateView {
    pub cc: Seq<u8>,
    pub notes: Seq<u8>,
    pub aftertouch: u8,
    pub pitch_bend: u16,
    pub last_pitch: u8,
    pub event_counter: u64,
    pub last_event: Option<MidiEvent>,
    pub trigger_count: u64,
}

impl View for RawMidiState {
    type V = MidiStateView;

    open spec fn view(&self) -> MidiStateView {
        MidiStateView {
            cc: self.cc@,
            notes: self.notes@,
            aftertouch: self.aftertouch,
            pitch_bend: self.pitch_bend,
            last_pitch: self.last_pitch,
            event_counter: self.event_counter,
            last_event: self.last_event,
            trigger_count: self.trigger_count,
        }
    }
}

/// A data byte limited to 7 bits, as the state stores it.
pub open spec fn clamp7(b: u8) -> u8 {
    if b > 127 { 127 } else { b }
}

/// `n + 1`, wrapping to 0 past `u64::MAX`.
pub open spec fn wrapping_inc(n: u64) -> u64 {
    if n == u64::MAX { 0 } else { (n + 1) as u64 }
}

/// The state after recording an event of `source`, `number` and `value`.
pub open spec fn record(v: MidiStateView, source: MidiSource, number: u8, value: u8) -> MidiStateView {
    let counter = wrapping_inc(v.event_counter);
    MidiStateView {
        event_counter: counter,
        last_event: Some(MidiEvent { source, number, value, counter }),
        ..v
    }
}

/// The high nibble of a status byte (the message kind).
pub open spec fn status_kind(status: u8) -> int {
    status as int / 16
}

/// The state after one MIDI message:
/// note off (`0x8n`) releases the note; note on (`0x9n`) with velocity 0
/// releases it, otherwise holds it, makes it the last pitch, counts a trigger
/// and records a note event; polyphonic (`0xAn`) and channel (`0xDn`)
/// aftertouch set the pressure; control change (`0xBn`) sets the controller
/// and records a control event; pitch bend (`0xEn`) sets the 14-bit bend.
/// Data bytes above 127 count as 127. Empty, short or other messages change
/// nothing.
pub open spec fn after_message(v: MidiStateView, m: Seq<u8>) -> MidiStateView {
    if m.len() == 0 {
        v
    } else {
        let kind = status_kind(m[0]);
        if kind == 8 && m.len() >= 2 {
            MidiStateView { notes: v.notes.update(clamp7(m[1]) as int, 0), ..v }
        } else if kind == 9 && m.len() >= 3 {
            let note = clamp7(m[1]);
            let velocity = clamp7(m[2]);
            if velocity == 0 {
                MidiStateView { notes: v.notes.update(note as int, 0), ..v }
            } else {
                record(
                    MidiStateView {
                        notes: v.notes.update(note as int, velocity),
                        last_pitch: note,
                        trigger_count: wrapping_inc(v.trigger_count),
                        ..v
                    },
                    MidiSource::Note,
                    note,
                    velocity,
                )
            }
        } else if kind == 10 && m.len() >= 3 {
            MidiStateView { aftertouch: clamp7(m[2]), ..v }
        } else if kind == 11 && m.len() >= 3 {
            let controller = clamp7(m[1]);
            let value = clamp7(m[2]);
            record(
                MidiStateView { cc: v.cc.update(controller as int, value), ..v },
                MidiSource::ControlChange,
                controller,
                value,
            )
        } else if kind == 13 && m.len() >= 2 {
            MidiStateView { aftertouch: clamp7(m[1]), ..v }
        } else if kind == 14 && m.len() >= 3 {
            MidiStateView { pitch_bend: (clamp7(m[2]) as int * 128 + clamp7(m[1]) as int) as u16, ..v }
        } else {
            v
        }
    }
}

/// A message records an event exactly when it is a note-on with a nonzero
/// velocity or a control change; the event counter then steps by one, and
/// otherwise stays.
pub proof fn lemma_event_counter_step(v: MidiStateView, m: Seq<u8>)
    ensures
        ({
            let records = m.len() >= 3 && ((status_kind(m[0]) == 9 && clamp7(m[2]) != 0)
                || status_kind(m[0]) == 11);
            &&& records ==> after_message(v, m).event_counter == wrapping_inc(v.event_counter)
            &&& !records ==> after_message(v, m).event_counter == v.event_counter
                && after_message(v, m).last_event == v.last_event
        }),
{
}

/// A control change on any channel sets its controller to the value it
/// carries and becomes the last event.
pub proof fn lemma_control_change_sets_value(
    v: MidiStateView,
    channel: u8,
    controller: u8,
    value: u8,
)
    requires
        channel <= 15,
        controller <= 127,
        value <= 127,
        v.cc.len() == 128,
    ensures
        ({
            let after = after_message(v, seq![(0xB0 + channel) as u8, controller, value]);
            &&& after.cc[controller as int] == value
            &&& after.last_event == Some(
                MidiEvent {
                    source: MidiSource::ControlChange,
                    number: controller,
                    value,
                    counter: wrapping_inc(v.event_counter),
                },
            )
        }),
{
}

/// A note struck and then released (by a note-off, or by a note-on of
/// velocity 0) is no longer held.
pub proof fn lemma_note_released(
    v: MidiStateView,
    on_channel: u8,
    off_status: u8,
    note: u8,
    velocity: u8,
)
    requires
        on_channel <= 15,
        status_kind(off_status) == 8,
        note <= 127,
        v.notes.len() == 128,
    ensures
        after_message(
            after_message(v, seq![(0x90 + on_channel) as u8, note, velocity]),
            seq![off_status, note],
        ).notes[note as int] == 0,
        after_message(
            after_message(v, seq![(0x90 + on_channel) as u8, note, velocity]),
            seq![(0x90 + on_channel) as u8, note, 0],
        ).notes[note as int] == 0,
{
}

/// Every note-off message (status `0x8n`) of at least two bytes, with or
/// without a release velocity, releases the note it names and leaves every
/// other note as it was.
pub proof fn lemma_note_off_releases(v: MidiStateView, m: Seq<u8>)
    requires
        v.notes.len() == 128,
        m.len() >= 2,
        16 * 8 <= m[0] < 16 * 9,
    ensures
        m[1] <= 127 ==> after_message(v, m).notes[m[1] as int] == 0,
        m[1] > 127 ==> after_message(v, m).notes[127] == 0,
        forall|i: int|
            0 <= i < 128 && i != m[1] as int && !(m[1] > 127 && i == 127) ==> #[trigger] after_message(
                v,
                m,
            ).notes[i] == v.notes[i],
{
}

/// Some parameter is bound to control-change controller slot `i`.
pub open spec fn cc_slot_bound(bindings: MidiBindings, i: int) -> bool {
    exists|k: int|
        0 <= k < MIDI_CONTROL_COUNT && {
            let b = #[trigger] bindings.binding_of(LearnTarget::Control(control_at(k)));
            b.source == MidiSource::ControlChange && slot(b.number) == i
        }
}

impl RawMidiState {
    /// Every stored value is within the range its message can carry, and the
    /// last event carries the current event counter.
    pub open spec fn wf(&self) -> bool {
        &&& forall|i: int| 0 <= i < 128 ==> #[trigger] self.cc@[i] <= 127
        &&& forall|i: int| 0 <= i < 128 ==> #[trigger] self.notes@[i] <= 127
        &&& self.aftertouch <= 127
        &&& self.pitch_bend <= 16383
        &&& self.last_pitch <= 127
        &&& match self.last_event {
            Some(e) => e.counter == self.event_counter && e.number <= 127 && e.value <= 127
                && e.source != MidiSource::Unassigned,
            None => true,
        }
    }

    /// Applies one MIDI message.
    pub fn apply_message(&mut self, message: &[u8])
        ensures
            final(self)@ == after_message(old(self)@, message@),
            old(self).wf() ==> final(self).wf(),
    {
        if message.len() == 0 {
            return;
        }
        let first = message[0];
        let status = first & 0xF0;
        proof {
            assert((first & 0xF0u8) == 0x80u8 <==> first / 16 == 8) by (bit_vector);
            assert((first & 0xF0u8) == 0x90u8 <==> first / 16 == 9) by (bit_vector);
            assert((first & 0xF0u8) == 0xA0u8 <==> first / 16 == 10) by (bit_vector);
            assert((first & 0xF0u8) == 0xB0u8 <==> first / 16 == 11) by (bit_vector);
            assert((first & 0xF0u8) == 0xD0u8 <==> first / 16 == 13) by (bit_vector);
            assert((first & 0xF0u8) == 0xE0u8 <==> first / 16 == 14) by (bit_vector);
        }
        if status == 0x80 && message.len() >= 2 {
            let note = clamp_data(message[1]);
            self.notes[note as usize] = 0;
        } else if status == 0x90 && message.len() >= 3 {
            let note = clamp_data(message[1]);
            let velocity = clamp_data(message[2]);
            if velocity == 0 {
                self.notes[note as usize] = 0;
            } else {
                self.notes[note as usize] = velocity;
                self.last_pitch = note;
                self.trigger_count = self.trigger_count.wrapping_add(1);
                self.record_event(MidiSource::Note, note, velocity);
            }
        } else if status == 0xA0 && message.len() >= 3 {
            self.aftertouch = clamp_data(message[2]);
        } else if status == 0xB0 && message.len() >= 3 {
            let controller = clamp_data(message[1]);
            let value = clamp_data(message[2]);
            self.cc[controller as usize] = value;
            self.record_event(MidiSource::ControlChange, controller, value);
        } else if status == 0xD0 && message.len() >= 2 {
            self.aftertouch = clamp_data(message[1]);
        } else if status == 0xE0 && message.len() >= 3 {
            let lsb = clamp_data(message[1]) as u16;
            let msb = clamp_data(message[2]) as u16;
            self.pitch_bend = msb * 128 + lsb;
        }
        proof {
            assert(self@ =~= after_message(old(self)@, message@));
        }
    }

    /// Counts one more event and makes it the last event.
    fn record_event(&mut self, source: MidiSource, number: u8, value: u8)
        ensures
            final(self)@ == record(old(self)@, source, number, value),
    {
        self.event_counter = self.event_counter.wrapping_add(1);
        self.last_event = Some(MidiEvent { source, number, value, counter: self.event_counter });
        proof {
            assert(self@ =~= record(old(self)@, source, number, value));
        }
    }

    /// Clears what the effect reset clears: every controller bound to a
    /// parameter goes to 0, every note is released, aftertouch goes to 0 and
    /// the bend to its centre; the trigger count goes up by one.
    pub fn reset_effect_values(&mut self, bindings: &MidiBindings)
        ensures
            forall|i: int|
                0 <= i < 128 ==> #[trigger] final(self).cc@[i] == (if cc_slot_bound(*bindings, i) {
                    0
                } else {
                    old(self).cc@[i]
                }),
            forall|i: int| 0 <= i < 128 ==> #[trigger] final(self).notes@[i] == 0,
            final(self).aftertouch == 0,
            final(self).pitch_bend == PITCH_BEND_CENTER,
            final(self).trigger_count == wrapping_inc(old(self).trigger_count),
            final(self).last_pitch == old(self).last_pitch,
            final(self).event_counter == old(self).event_counter,
            final(self).last_event == old(self).last_event,
            old(self).wf() ==> final(self).wf(),
    {
        let ghost start = *self;
        let table = bindings.bindings();
        let mut k: usize = 0;
        while k < MIDI_CONTROL_COUNT
            invariant
                k <= MIDI_CONTROL_COUNT,
                forall|j: int|
                    0 <= j < MIDI_CONTROL_COUNT ==> #[trigger] table@[j] == bindings.binding_of(
                        LearnTarget::Control(control_at(j)),
                    ),
                forall|i: int|
                    0 <= i < 128 ==> #[trigger] self.cc@[i] == (if exists|j: int|
                        0 <= j < k && #[trigger] table@[j].source == MidiSource::ControlChange
                            && slot(table@[j].number) == i {
                        0
                    } else {
                        start.cc@[i]
                    }),
                self.notes == start.notes,
                self.aftertouch == start.aftertouch,
                self.pitch_bend == start.pitch_bend,
                self.last_pitch == start.last_pitch,
                self.event_counter == start.event_counter,
                self.last_event == start.last_event,
                self.trigger_count == start.trigger_count,
            decreases MIDI_CONTROL_COUNT - k,
        {
            let binding = table[k];
            if binding.source == MidiSource::ControlChange {
                let i = clamp_data(binding.number);
                self.cc[i as usize] = 0;
            }
            proof {
                assert forall|i: int| 0 <= i < 128 implies #[trigger] self.cc@[i] == (if exists|j: int|
                    0 <= j < k + 1 && #[trigger] table@[j].source == MidiSource::ControlChange
                        && slot(table@[j].number) == i {
                    0
                } else {
                    start.cc@[i]
                }) by {
                    if table@[k as int].source == MidiSource::ControlChange && slot(
                        table@[k as int].number,
                    ) == i {
                        assert(self.cc@[i] == 0);
                    }
                }
            }
            k = k + 1;
        }
        self.notes = [0u8; 128];
        self.aftertouch = 0;
        self.pitch_bend = PITCH_BEND_CENTER;
        self.trigger_count = self.trigger_count.wrapping_add(1);
        proof {
            assert forall|i: int| 0 <= i < 128 implies #[trigger] self.cc@[i] == (if cc_slot_bound(
                *bindings,
                i,
            ) {
                0
            } else {
                start.cc@[i]
            }) by {
                if cc_slot_bound(*bindings, i) {
                    let j = choose|j: int|
                        0 <= j < MIDI_CONTROL_COUNT && {
                            let b = #[trigger] bindings.binding_of(LearnTarget::Control(control_at(j)));
                            b.source == MidiSource::ControlChange && slot(b.number) == i
                        };
                    assert(table@[j].source == MidiSource::ControlChange);
                }
            }
        }
    }

    /// The highest velocity among the held notes (0 when none is held).
    pub fn max_velocity(&self) -> (r: u8)
        ensures
            forall|i: int| 0 <= i < 128 ==> #[trigger] self.notes@[i] <= r,
            r == 0 || exists|i: int| 0 <= i < 128 && #[trigger] self.notes@[i] == r,
    {
        let mut best: u8 = 0;
        let mut i: usize = 0;
        while i < 128
            invariant
                i <= 128,
                forall|j: int| 0 <= j < i ==> #[trigger] self.notes@[j] <= best,
                best == 0 || exists|j: int| 0 <= j < i && #[trigger] self.notes@[j] == best,
            decreases 128 - i,
        {
            if self.notes[i] > best {
                best = self.notes[i];
            }
            i = i + 1;
        }
        best
    }

    /// The number of held notes.
    pub fn active_notes(&self) -> (r: u32)
        ensures
            r == held_count(self.notes@, 128),
            r == 0 <==> forall|i: int| 0 <= i < 128 ==> #[trigger] self.notes@[i] == 0,
    {
        let mut count: u32 = 0;
        let mut i: usize = 0;
        while i < 128
            invariant
                i <= 128,
                self.notes@.len() == 128,
                count == held_count(self.notes@, i as int),
                count <= i,
                count == 0 <==> forall|j: int| 0 <= j < i ==> #[trigger] self.notes@[j] == 0,
            decreases 128 - i,
        {
            if self.notes[i] != 0 {
                count = count + 1;
            }
            i = i + 1;
        }
        count
    }
}

/// The number of nonzero entries among the first `n` of `notes`.
pub open spec fn held_count(notes: Seq<u8>, n: int) -> nat
    decreases n,
{
    if n <= 0 {
        0
    } else {
        held_count(notes, n - 1) + if notes[n - 1] != 0 { 1nat } else { 0nat }
    }
}

fn clamp_data(b: u8) -> (r: u8)
    ensures
        r == clamp7(b),
{
    if b > 127 { 127 } else { b }
}

impl Default for RawMidiState {
    fn default() -> (r: Self)
        ensures
            forall|i: int| 0 <= i < 128 ==> #[trigger] r.cc@[i] == 0,
            forall|i: int| 0 <= i < 128 ==> #[trigger] r.notes@[i] == 0,
            r.aftertouch == 0,
            r.pitch_bend == PITCH_BEND_CENTER,
            r.last_pitch == 64,
            r.event_counter == 0,
            r.last_event == None::<MidiEvent>,
            r.trigger_count == 0,
            r.wf(),
    {
        RawMidiState {
            cc: [0u8; 128],
            notes: [0u8; 128],
            aftertouch: 0,
            pitch_bend: PITCH_BEND_CENTER,
            last_pitch: 64,
            event_counter: 0,
            last_event: None,
            trigger_count: 0,
        }
    }
}

/// Whether `last_event` fires the effect reset, when `last_reset` is the
/// counter of the last event that fired it: the event must be new (its
/// counter differs), strong enough (at least `MIN_RESET_VALUE`), and come
/// from the source bound to the reset.
pub open spec fn reset_fires(bindings: MidiBindings, last_event: Option<MidiEvent>, last_reset: u64) -> bool {
    match last_event {
        Some(e) => e.counter != last_reset && e.value >= MIN_RESET_VALUE
            && bindings.binding_of(LearnTarget::ResetEffects).source == e.source
            && bindings.binding_of(LearnTarget::ResetEffects).number == e.number,
        None => false,
    }
}

/// Whether the last event fires the effect reset (see `reset_fires`). When it
/// fires, its counter is remembered so that it fires only once.
pub fn should_reset_effects(
    bindings: &MidiBindings,
    last_event: Option<MidiEvent>,
    last_reset_event_counter: &mut u64,
) -> (r: bool)
    ensures
        r == reset_fires(*bindings, last_event, *old(last_reset_event_counter)),
        *final(last_reset_event_counter) == (if r {
            last_event->0.counter
        } else {
            *old(last_reset_event_counter)
        }),
{
    let event = match last_event {
        Some(e) => e,
        None => return false,
    };
    if event.counter == *last_reset_event_counter || event.value < MIN_RESET_VALUE {
        return false;
    }
    if !bindings.reset_binding().matches(event) {
        return false;
    }
    *last_reset_event_counter = event.counter;
    true
}

/// An event fires the reset at most once: with the counter that its firing
/// leaves behind, the same event no longer fires it.
pub proof fn lemma_reset_fires_once(bindings: MidiBindings, last_event: Option<MidiEvent>, last_reset: u64)
    requires
        reset_fires(bindings, last_event, last_reset),
    ensures
        !reset_fires(bindings, last_event, last_event->0.counter),
{
}

/// The reset fires only for a new, strong enough event from exactly the
/// source the reset is bound to (the same kind of message and the same
/// number); an event of another number or kind never fires it.
pub proof fn lemma_reset_needs_bound_source(
    bindings: MidiBindings,
    event: MidiEvent,
    last_reset: u64,
)
    ensures
        reset_fires(bindings, Some(event), last_reset) ==> {
            &&& event.source == bindings.binding_of(LearnTarget::ResetEffects).source
            &&& event.number == bindings.binding_of(LearnTarget::ResetEffects).number
            &&& event.counter != last_reset
            &&& event.value >= 7
        },
        event.source != bindings.binding_of(LearnTarget::ResetEffects).source
            || event.number != bindings.binding_of(LearnTarget::ResetEffects).number
            ==> !reset_fires(bindings, Some(event), last_reset),
        !reset_fires(bindings, None, last_reset),
{
}

/// Picks the MIDI port to open: the first whose name contains the preferred
/// name (ASCII case-insensitively), else the first port.
pub fn select_port_index(names: &Vec<String>, preferred: Option<&str>) -> (r: usize)
    ensures
        preferred.is_none() ==> r == 0,
        preferred.is_some() ==> {
            ||| is_first_containing(names_view(names@), preferred->0@, r as int)
            ||| r == 0 && forall|i: int|
                0 <= i < names.len() ==> !#[trigger] contains_ci(names@[i]@, preferred->0@)
        },
{
    match preferred {
        None => 0,
        Some(p) => match find_first_containing(names, p) {
            Some(i) => i,
            None => 0,
        },
    }
}

} // verus!
