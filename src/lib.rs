//! Core of a real-time audio effects engine: the bounded delay buffer that
//! the echo and chorus effects share, and the fixed order in which the
//! configured effect passes run over a buffer of samples.

pub mod delay_line;
pub mod pipeline;
