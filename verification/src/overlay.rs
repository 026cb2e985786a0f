//! The decisions of the options overlay: opening and closing with the
//! unsaved-changes prompt, MIDI learn, and the chroma-key eyedropper.

use vstd::prelude::*;

use crate::bindings::{
    assign_unique_binding, assigned, LearnTarget, MidiBindings, MidiControl, MidiEvent, MidiSource,
};
use crate::text::{trim, trimmed};

verus! {

/// The connection status lines shown in the overlay.
#[derive(Clone, Copy, Debug)]
pub struct UiStatus<'a> {
    pub midi: &'a str,
    pub ndi: &'a str,
}

/// The state of the options overlay that its decisions read and change.
#[derive(Clone, Copy, Debug)]
pub struct OverlayState {
    pub open: bool,
    pub dirty: bool,
    pub save_prompt_open: bool,
    pub learn_target: Option<LearnTarget>,
    pub learn_started_after: u64,
    pub eyedropper_active: bool,
}

/// Whether a learn session for `target`, started after event counter `after`,
/// takes `event`: the event must be newer than the start and name a source;
/// a parameter other than the flash learns only controllers.
pub open spec fn learn_accepts(target: LearnTarget, after: u64, event: MidiEvent) -> bool {
    &&& event.counter > after
    &&& event.source != MidiSource::Unassigned
    &&& match target {
        LearnTarget::Control(c) => event.source == MidiSource::ControlChange || c
            == MidiControl::Flash,
        LearnTarget::ResetEffects => true,
    }
}

/// What a learn session takes: nothing that is not newer than its start or
/// names no source; every parameter takes a newer control change; the flash
/// and the effect reset also take notes; any other parameter refuses notes.
pub proof fn lemma_learn_acceptance(target: LearnTarget, after: u64, event: MidiEvent)
    ensures
        event.counter <= after ==> !learn_accepts(target, after, event),
        event.source == MidiSource::Unassigned ==> !learn_accepts(target, after, event),
        event.counter > after && event.source == MidiSource::ControlChange ==> learn_accepts(
            target,
            after,
            event,
        ),
        event.counter > after && event.source == MidiSource::Note && (target
            == LearnTarget::Control(MidiControl::Flash) || target == LearnTarget::ResetEffects)
            ==> learn_accepts(target, after, event),
        event.source == MidiSource::Note && target != LearnTarget::Control(MidiControl::Flash)
            && target != LearnTarget::ResetEffects ==> !learn_accepts(target, after, event),
{
}

impl OverlayState {
    /// A closed overlay with nothing pending.
    pub fn new() -> (r: Self)
        ensures
            !r.open,
            !r.dirty,
            !r.save_prompt_open,
            r.learn_target.is_none(),
            r.learn_started_after == 0,
            !r.eyedropper_active,
    {
        OverlayState {
            open: false,
            dirty: false,
            save_prompt_open: false,
            learn_target: None,
            learn_started_after: 0,
            eyedropper_active: false,
        }
    }

    /// Whether the overlay is shown.
    pub fn is_open(&self) -> (r: bool)
        ensures
            r == self.open,
    {
        self.open
    }

    /// Asks to close: with unsaved changes the save prompt opens and the
    /// overlay stays; otherwise it closes and drops MIDI learn and the
    /// eyedropper.
    pub fn request_close(&mut self)
        ensures
            old(self).dirty ==> *final(self) == (OverlayState { save_prompt_open: true, ..*old(self) }),
            !old(self).dirty ==> *final(self) == (OverlayState {
                open: false,
                learn_target: None,
                eyedropper_active: false,
                ..*old(self)
            }),
    {
        if self.dirty {
            self.save_prompt_open = true;
        } else {
            self.open = false;
            self.learn_target = None;
            self.eyedropper_active = false;
        }
    }

    /// Opens a closed overlay, or asks to close an open one. Returns whether
    /// the list of MIDI ports should be refreshed (on opening).
    pub fn toggle(&mut self) -> (refresh: bool)
        ensures
            refresh == !old(self).open,
            !old(self).open ==> *final(self) == (OverlayState { open: true, ..*old(self) }),
            old(self).open && old(self).dirty ==> *final(self) == (OverlayState {
                save_prompt_open: true,
                ..*old(self)
            }),
            old(self).open && !old(self).dirty ==> *final(self) == (OverlayState {
                open: false,
                learn_target: None,
                eyedropper_active: false,
                ..*old(self)
            }),
    {
        if self.open {
            self.request_close();
            false
        } else {
            self.open = true;
            true
        }
    }

    /// Asks to close the overlay when it is open.
    pub fn close(&mut self)
        ensures
            !old(self).open ==> *final(self) == *old(self),
            old(self).open && old(self).dirty ==> *final(self) == (OverlayState {
                save_prompt_open: true,
                ..*old(self)
            }),
            old(self).open && !old(self).dirty ==> *final(self) == (OverlayState {
                open: false,
                learn_target: None,
                eyedropper_active: false,
                ..*old(self)
            }),
    {
        if self.open {
            self.request_close();
        }
    }

    /// Records that the current settings were saved.
    pub fn mark_saved(&mut self)
        ensures
            *final(self) == (OverlayState { dirty: false, ..*old(self) }),
    {
        self.dirty = false;
    }

    /// "Save & close" in the save prompt (after the settings were saved).
    pub fn close_after_save(&mut self)
        ensures
            *final(self) == (OverlayState {
                dirty: false,
                open: false,
                save_prompt_open: false,
                ..*old(self)
            }),
    {
        self.dirty = false;
        self.open = false;
        self.save_prompt_open = false;
    }

    /// "Discard" in the save prompt: the overlay closes without saving (the
    /// caller restores the saved settings).
    pub fn discard_and_close(&mut self)
        ensures
            *final(self) == (OverlayState {
                dirty: false,
                open: false,
                save_prompt_open: false,
                learn_target: None,
                eyedropper_active: false,
                ..*old(self)
            }),
    {
        self.dirty = false;
        self.open = false;
        self.save_prompt_open = false;
        self.learn_target = None;
        self.eyedropper_active = false;
    }

    /// "Cancel" in the save prompt: the overlay stays open.
    pub fn cancel_prompt(&mut self)
        ensures
            *final(self) == (OverlayState { save_prompt_open: false, ..*old(self) }),
    {
        self.save_prompt_open = false;
    }

    /// Starts learning a binding for `target`; only events newer than the
    /// last one seen now are taken.
    pub fn start_learning(&mut self, target: LearnTarget, last_event: Option<MidiEvent>)
        ensures
            *final(self) == (OverlayState {
                learn_target: Some(target),
                learn_started_after: match last_event {
                    Some(e) => e.counter,
                    None => 0,
                },
                ..*old(self)
            }),
    {
        self.learn_target = Some(target);
        self.learn_started_after = match last_event {
            Some(e) => e.counter,
            None => 0,
        };
    }

    /// Offers the last MIDI event to a running learn session. When the
    /// session takes it, the event's source is bound to the learn target
    /// (and taken from every other target) and the session ends; otherwise
    /// nothing changes.
    pub fn consume_learn_event(&mut self, bindings: &mut MidiBindings, last_event: Option<MidiEvent>)
        ensures
            ({
                let taken = match (old(self).learn_target, last_event) {
                    (Some(t), Some(e)) => learn_accepts(t, old(self).learn_started_after, e),
                    _ => false,
                };
                &&& taken ==> assigned(
                    *old(bindings),
                    *final(bindings),
                    old(self).learn_target->0,
                    last_event->0.as_binding_spec(),
                )
                &&& taken ==> *final(self) == (OverlayState { learn_target: None, ..*old(self) })
                &&& !taken ==> *final(bindings) == *old(bindings) && *final(self) == *old(self)
            }),
    {
        let target = match self.learn_target {
            Some(t) => t,
            None => return,
        };
        let event = match last_event {
            Some(e) => e,
            None => return,
        };
        if event.counter <= self.learn_started_after || event.source == MidiSource::Unassigned {
            return;
        }
        match target {
            LearnTarget::Control(control) => {
                if event.source != MidiSource::ControlChange && control != MidiControl::Flash {
                    return;
                }
            },
            LearnTarget::ResetEffects => {},
        }
        assign_unique_binding(bindings, target, event.as_binding());
        self.learn_target = None;
    }

    /// Stops a learn session.
    pub fn cancel_learning(&mut self)
        ensures
            *final(self) == (OverlayState { learn_target: None, ..*old(self) }),
    {
        self.learn_target = None;
    }

    /// Arms the eyedropper.
    pub fn start_eyedropper(&mut self)
        ensures
            *final(self) == (OverlayState { eyedropper_active: true, ..*old(self) }),
    {
        self.eyedropper_active = true;
    }

    /// Disarms the eyedropper.
    pub fn cancel_eyedropper(&mut self)
        ensures
            *final(self) == (OverlayState { eyedropper_active: false, ..*old(self) }),
    {
        self.eyedropper_active = false;
    }

    /// Offers a pointer click to the armed eyedropper. A primary click with a
    /// known position outside the overlay's panels is sampled once: the
    /// position is returned and the eyedropper disarms.
    pub fn consume_eyedropper_click<P>(
        &mut self,
        pointer_over_panel: bool,
        clicked: bool,
        position: Option<P>,
    ) -> (r: Option<P>)
        ensures
            ({
                let taken = old(self).eyedropper_active && !pointer_over_panel && clicked
                    && position.is_some();
                &&& taken ==> r == position && *final(self) == (OverlayState {
                    eyedropper_active: false,
                    ..*old(self)
                })
                &&& !taken ==> r.is_none() && *final(self) == *old(self)
            }),
    {
        if !self.eyedropper_active || pointer_over_panel {
            return None;
        }
        if !clicked {
            return None;
        }
        match position {
            Some(p) => {
                self.eyedropper_active = false;
                Some(p)
            },
            None => None,
        }
    }
}

/// A text field's value with surrounding whitespace removed, or `None` when
/// nothing is left.
pub fn non_empty(value: String) -> (r: Option<String>)
    ensures
        trimmed(value@).len() == 0 ==> r.is_none(),
        trimmed(value@).len() > 0 ==> r.is_some() && r->0@ == trimmed(value@),
{
    let t = trim(value.as_str());
    if t.is_empty() {
        None
    } else {
        Some(t.to_owned())
    }
}

} // verus!
