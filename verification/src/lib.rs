pub mod bridge;
pub mod convert;
pub mod oscillator;

pub use oscillator::DoNotMoveThis;
