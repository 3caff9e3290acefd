//! Escrow for a job marketplace: a client locks a payment per job, a worker
//! submits proof of completion, and the client approves (the payment is split
//! between worker and platform treasury) or rejects (the job reopens), or
//! cancels an open job (the payment goes back).
pub mod authority;
pub mod error;
pub mod fee;
pub mod job;
pub mod laws;
pub mod lifecycle;
pub mod marketplace;
pub mod transfer;
