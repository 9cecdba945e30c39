//! The phase state machine of a participant, and what it exchanges with
//! its driver.

pub mod io;
pub mod laws;
pub mod phase;
pub mod phases;
pub mod state_machine;

pub use io::{Demand, DemandKind, IoError, Notification, SendMessageError, Supply};
pub use phase::{Phase, Progress, RoundFreshness, SharedState, State, Step};
pub use phases::{Awaiting, NewRound, Sum, Sum2, Update};
pub use state_machine::{SerializableState, StateMachine, Transition, TransitionOutcome, Turn};
