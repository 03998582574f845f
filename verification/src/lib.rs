//! Dining philosophers as a verified resource-acquisition protocol.
//!
//! Five agents sit in a ring around five exclusive forks; each agent needs the
//! fork at its own position and the next one to eat. An agent waits without
//! bound for its first fork, but races its second fork against a sampled
//! deadline and gives both attempts up when the deadline wins. A periodic
//! monitor watches a shared activity flag and the lock state of every fork and
//! declares a global stall when it sees the closed-ring signature.
//!
//! The library holds the whole protocol: the phase machine of one agent, the
//! shared fork table, the transition function of the system, the monitor's
//! poll, and the proofs that the protocol keeps its safety properties. An
//! unverified scheduler around it only decides which pending wakeup fires
//! next, supplies raw 32-bit samples, and performs the sleeps and log writes.

pub mod activity;
pub mod agent;
pub mod forks;
pub mod laws;
pub mod monitor;
pub mod system;
pub mod timing;
