use vstd::prelude::*;

verus! {

/// The kind of primary oscillator that excites the air column.
#[derive(PartialEq, Eq, Structural, Clone, Copy, Debug)]
pub enum InstrumentType {
    /// A cane reed beating against a mouthpiece (saxophone).
    SingleReed,
    /// The player's lips buzzing in a cup mouthpiece (trumpet).
    LipReed,
}

/// The boundary condition at the far end of the air column.
#[derive(PartialEq, Eq, Structural, Clone, Copy, Debug)]
pub enum ResonanceType {
    /// Open at both ends: the wave comes back with its phase preserved.
    OpenPipe,
    /// Closed at one end: the wave comes back inverted.
    ClosedPipe,
}

impl InstrumentType {
    /// Sign of the aerodynamic force on the reed, `f = ± ρ v² g / 2`: the Bernoulli
    /// suction pulls a single reed toward closure (`+1`), while the pressure pushes
    /// lips outward (`-1`).
    pub fn force_sign(self) -> (sign: i8)
        ensures
            sign == (match self {
                InstrumentType::SingleReed => 1i8,
                InstrumentType::LipReed => -1i8,
            }),
    {
        match self {
            InstrumentType::SingleReed => 1,
            InstrumentType::LipReed => -1,
        }
    }
}

impl Default for InstrumentType {
    /// A new instrument starts as a single reed.
    fn default() -> (instrument: Self)
        ensures
            instrument == InstrumentType::SingleReed,
    {
        InstrumentType::SingleReed
    }
}

impl ResonanceType {
    /// The net reflection coefficient `R` of one round trip through the pipe:
    /// `+1` for an open pipe, `-1` for a closed one.
    pub fn reflection_sign(self) -> (sign: i8)
        ensures
            sign == (match self {
                ResonanceType::OpenPipe => 1i8,
                ResonanceType::ClosedPipe => -1i8,
            }),
    {
        match self {
            ResonanceType::OpenPipe => 1,
            ResonanceType::ClosedPipe => -1,
        }
    }

    /// How many periods of the played note one round trip through the pipe lasts:
    /// an open pipe (`λ = 2L`) takes `1/f`, a closed pipe (`λ = 4L`) takes `2/f`.
    /// The delay in samples is this many periods at the sample rate.
    pub fn round_trip_periods(self) -> (periods: u32)
        ensures
            periods == (match self {
                ResonanceType::OpenPipe => 1u32,
                ResonanceType::ClosedPipe => 2u32,
            }),
    {
        match self {
            ResonanceType::OpenPipe => 1,
            ResonanceType::ClosedPipe => 2,
        }
    }
}

impl Default for ResonanceType {
    /// A new instrument starts with an open pipe.
    fn default() -> (resonance: Self)
        ensures
            resonance == ResonanceType::OpenPipe,
    {
        ResonanceType::OpenPipe
    }
}

} // verus!
