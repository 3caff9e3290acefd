//! Records kept per job and for the whole deployment, and the lifecycle
//! a job's status follows.
use vstd::prelude::*;

use crate::authority::Identity;

verus! {

/// Longest title, in characters.
pub const MAX_TITLE_LEN: usize = 64;
/// Longest description, in characters.
pub const MAX_DESCRIPTION_LEN: usize = 512;
/// Longest submission reference, in characters.
pub const MAX_SUBMISSION_URI_LEN: usize = 256;

/// Where a job stands in its lifecycle.
#[derive(Clone, Copy, Debug, PartialEq, Eq, Structural)]
pub enum JobStatus {
    Open,
    Submitted,
    Completed,
    Cancelled,
}

impl JobStatus {
    /// No transition leaves a terminal status.
    pub open spec fn is_terminal(self) -> bool {
        self is Completed || self is Cancelled
    }

    /// While a job is open or submitted its holding account keeps the payment.
    pub open spec fn holds_escrow(self) -> bool {
        self is Open || self is Submitted
    }
}

/// The edges of the lifecycle: submit (Open to Submitted), approve
/// (Submitted to Completed), reject (Submitted to Open) and cancel (Open to
/// Cancelled).
pub open spec fn is_transition(from: JobStatus, to: JobStatus) -> bool {
    ||| (from is Open && to is Submitted)
    ||| (from is Submitted && to is Completed)
    ||| (from is Submitted && to is Open)
    ||| (from is Open && to is Cancelled)
}

/// The deployment-wide settings and counters.
#[derive(Clone, Copy, Debug)]
pub struct Config {
    pub admin: Identity,
    /// The platform's fee in basis points, at most 10000.
    pub platform_fee_bps: u16,
    /// Jobs created so far; the next job's id.
    pub total_jobs: u64,
    /// Jobs approved so far.
    pub total_completed: u64,
}

/// One posted job.
#[derive(Debug)]
pub struct Job {
    pub id: u64,
    pub client: Identity,
    pub title: String,
    pub description: String,
    /// The amount held in escrow for this job.
    pub payment_amount: u64,
    pub status: JobStatus,
    pub worker: Option<Identity>,
    pub submission_uri: Option<String>,
    pub created_at: i64,
    /// The byte that, with the id, derives the job's custodial authority.
    pub bump: u8,
}

/// What a single operation may do to one job: the fields fixed at creation
/// stay, the status stays or follows one edge of the lifecycle, and a job in
/// a terminal status does not change at all.
pub open spec fn job_step(a: Job, b: Job) -> bool {
    &&& b.id == a.id
    &&& b.client == a.client
    &&& b.title == a.title
    &&& b.description == a.description
    &&& b.payment_amount == a.payment_amount
    &&& b.created_at == a.created_at
    &&& b.bump == a.bump
    &&& (b.status == a.status || is_transition(a.status, b.status))
    &&& a.status.is_terminal() ==> b == a
}

} // verus!
