//! An easy-to-use timer: each mark reports the time since the previous one.

pub mod clock;
pub mod timer;

pub use clock::Timestamp;
pub use timer::Timer;
