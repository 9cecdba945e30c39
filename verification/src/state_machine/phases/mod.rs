//! The five phases of a round.

pub mod awaiting;
pub mod new_round;
pub mod sum;
pub mod sum2;
pub mod update;

pub use awaiting::Awaiting;
pub use new_round::NewRound;
pub use sum::Sum;
pub use sum2::Sum2;
pub use update::Update;
