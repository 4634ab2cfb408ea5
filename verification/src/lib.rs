//! The rules of a DriftLine play session, verified: the history of the last
//! attempts, moving between zones, the release animation, the simulation
//! modes, and the messages that report how a release ended.

pub mod history;
pub mod mode;
pub mod outcome;
pub mod session;
pub mod text;
