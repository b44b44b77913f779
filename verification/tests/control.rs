use aerothesis::control::{route_event, CcAssignment, ControlAction, MidiEvent};

#[test]
fn default_assignment_is_breath_two_bite_eleven() {
    let a = CcAssignment::default();
    assert_eq!(a.breath, 2);
    assert_eq!(a.bite, 11);
}

#[test]
fn breath_controller_sets_breath() {
    let a = CcAssignment::default();
    assert_eq!(route_event(MidiEvent::ControlChange { cc: 2 }, a), ControlAction::SetBreath);
}

#[test]
fn bite_controller_sets_bite() {
    let a = CcAssignment::default();
    assert_eq!(route_event(MidiEvent::ControlChange { cc: 11 }, a), ControlAction::SetBite);
}

#[test]
fn other_controller_is_ignored() {
    let a = CcAssignment::default();
    assert_eq!(route_event(MidiEvent::ControlChange { cc: 64 }, a), ControlAction::Ignore);
}

#[test]
fn breath_wins_a_shared_controller() {
    let a = CcAssignment { breath: 7, bite: 7 };
    assert_eq!(route_event(MidiEvent::ControlChange { cc: 7 }, a), ControlAction::SetBreath);
}

#[test]
fn note_on_retunes() {
    let a = CcAssignment::default();
    assert_eq!(
        route_event(MidiEvent::NoteOn { note: 60 }, a),
        ControlAction::Retune { note: 60 }
    );
}

#[test]
fn other_events_are_ignored() {
    let a = CcAssignment::default();
    assert_eq!(route_event(MidiEvent::Other, a), ControlAction::Ignore);
}

#[test]
fn negative_assignment_matches_no_controller() {
    let a = CcAssignment { breath: -1, bite: 300 };
    assert_eq!(route_event(MidiEvent::ControlChange { cc: 255 }, a), ControlAction::Ignore);
}
