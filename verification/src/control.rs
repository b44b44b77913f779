use vstd::prelude::*;

verus! {

/// The MIDI controller that carries breath pressure unless the player reassigns it.
pub const DEFAULT_BREATH_CC: i32 = 2;

/// The MIDI controller that carries bite intensity unless the player reassigns it.
pub const DEFAULT_BITE_CC: i32 = 11;

/// Which MIDI continuous controllers drive the breath and the bite.
#[derive(Clone, Copy, PartialEq, Eq, Structural, Debug)]
pub struct CcAssignment {
    /// Controller number for breath pressure.
    pub breath: i32,
    /// Controller number for bite intensity.
    pub bite: i32,
}

impl Default for CcAssignment {
    /// Breath on controller 2 (the breath controller), bite on controller 11 (expression).
    fn default() -> (assignment: Self)
        ensures
            assignment.breath == DEFAULT_BREATH_CC,
            assignment.bite == DEFAULT_BITE_CC,
    {
        CcAssignment { breath: DEFAULT_BREATH_CC, bite: DEFAULT_BITE_CC }
    }
}

/// The part of an incoming MIDI event that decides what the synthesizer does with it.
#[derive(Clone, Copy, PartialEq, Eq, Structural, Debug)]
pub enum MidiEvent {
    /// A continuous controller moved; its value travels beside the event.
    ControlChange { cc: u8 },
    /// A key was pressed.
    NoteOn { note: u8 },
    /// Anything else.
    Other,
}

/// What the synthesizer does in answer to an event.
#[derive(Clone, Copy, PartialEq, Eq, Structural, Debug)]
pub enum ControlAction {
    /// The controller value, scaled by the pressure gain, becomes the breath pressure.
    SetBreath,
    /// The controller value becomes the bite intensity.
    SetBite,
    /// The resonator is emptied and tuned to the new note.
    Retune { note: u8 },
    /// The event changes nothing.
    Ignore,
}

/// Decides what an event does. A controller drives the breath when it is the breath
/// controller, and otherwise the bite when it is the bite controller, so the breath
/// wins when both are assigned the same controller; a key press retunes; everything
/// else is ignored.
pub fn route_event(event: MidiEvent, assignment: CcAssignment) -> (action: ControlAction)
    ensures
        (action == ControlAction::SetBreath) <==> (event matches MidiEvent::ControlChange { cc }
            && cc as i32 == assignment.breath),
        (action == ControlAction::SetBite) <==> (event matches MidiEvent::ControlChange { cc }
            && cc as i32 != assignment.breath && cc as i32 == assignment.bite),
        forall|note: u8|
            (action == ControlAction::Retune { note }) <==> (event == MidiEvent::NoteOn { note }),
        (action == ControlAction::Ignore) <==> (event == MidiEvent::Other || (
        event matches MidiEvent::ControlChange { cc } && cc as i32 != assignment.breath && cc as i32
            != assignment.bite)),
{
    match event {
        MidiEvent::ControlChange { cc } => {
            let number: i32 = cc as i32;
            if number == assignment.breath {
                ControlAction::SetBreath
            } else if number == assignment.bite {
                ControlAction::SetBite
            } else {
                ControlAction::Ignore
            }
        },
        MidiEvent::NoteOn { note } => ControlAction::Retune { note },
        MidiEvent::Other => ControlAction::Ignore,
    }
}

} // verus!
