//! A monotonic software clock built on a narrow, periodically overflowing
//! hardware counter, a deadline-wake scheduler driven by the overflow
//! interrupt, and the halt-based idle loop that ties them to a cooperative
//! task executor.
//!
//! Everything here is plain computation on values; the hardware registers,
//! the interrupt handler and the critical sections live with the caller.

pub mod alarm;
pub mod clock;
pub mod config;
pub mod deadline_queue;
pub mod frame;
pub mod idle;
pub mod sound;

pub use alarm::{AlarmPhase, AlarmScheduler, AlarmState};
pub use clock::calc_now;
pub use config::{Config, TimerConfig, TimerNumber};
pub use frame::{FrameEvents, FrameState};
pub use idle::{IdleAction, IdleLoop, IdleState};
pub use sound::SoundError;
