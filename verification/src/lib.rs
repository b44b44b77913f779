//! The decision logic of a physically modelled wind synthesizer: the resonant delay
//! line of the air column, the reed and pipe kinds with the signs and round trips they
//! impose, and the routing of MIDI control events.

pub mod control;
pub mod delay_line;
pub mod instrument;
