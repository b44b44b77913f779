use aerothesis::instrument::{InstrumentType, ResonanceType};

#[test]
fn force_sign_follows_the_reed() {
    assert_eq!(InstrumentType::SingleReed.force_sign(), 1);
    assert_eq!(InstrumentType::LipReed.force_sign(), -1);
}

#[test]
fn reflection_sign_follows_the_pipe() {
    assert_eq!(ResonanceType::OpenPipe.reflection_sign(), 1);
    assert_eq!(ResonanceType::ClosedPipe.reflection_sign(), -1);
}

#[test]
fn round_trip_periods_follow_the_pipe() {
    assert_eq!(ResonanceType::OpenPipe.round_trip_periods(), 1);
    assert_eq!(ResonanceType::ClosedPipe.round_trip_periods(), 2);
}

#[test]
fn defaults_are_single_reed_and_open_pipe() {
    assert_eq!(InstrumentType::default(), InstrumentType::SingleReed);
    assert_eq!(ResonanceType::default(), ResonanceType::OpenPipe);
}
