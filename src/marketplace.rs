//! The job lifecycle controller: every job, its holding account's balance
//! and the deployment's settings, and the operations that drive a job from
//! posting to approval or cancellation. Each operation either succeeds whole
//! or leaves the state untouched, and hands back the token transfers that the
//! host must carry out in the same transaction.
use vstd::prelude::*;

use crate::authority::{find_job_bump, job_authority, job_seeds, Identity};
use crate::error::GigZeroError;
use crate::fee::lemma_fee_within_payment;
use crate::job::{
    job_step, Config, Job, JobStatus, MAX_DESCRIPTION_LEN, MAX_SUBMISSION_URI_LEN, MAX_TITLE_LEN,
};
use crate::lifecycle::{self, client_error, post_error, posted_job, submission_error};
use crate::transfer::{
    approval_transfers, deposit_transfer, holding_outflow, refund_transfers, Settlement, Transfer,
};

verus! {

/// The first rule that an operation on job `id` needing status `needed`
/// and the client as caller breaks, if any.
pub open spec fn client_op_error(
    m: Marketplace,
    id: u64,
    caller: Identity,
    needed: JobStatus,
    wrong_status: GigZeroError,
) -> Option<GigZeroError> {
    if !m.has_job(id) {
        Some(GigZeroError::UnknownJob)
    } else {
        client_error(m.job_spec(id), caller, needed, wrong_status)
    }
}

/// The first rule that submitting `uri` for job `id` breaks, if any.
pub open spec fn submit_error(m: Marketplace, id: u64, uri: Seq<char>) -> Option<GigZeroError> {
    if !m.has_job(id) {
        Some(GigZeroError::UnknownJob)
    } else {
        submission_error(m.job_spec(id), uri)
    }
}

/// All jobs of one deployment, with their holding balances.
#[derive(Debug)]
pub struct Marketplace {
    /// The program under which job authorities are derived.
    pub program_id: Identity,
    pub config: Config,
    /// The jobs, each at the index equal to its id.
    pub jobs: Vec<Job>,
    /// The balance of each job's holding account, by job id.
    pub holdings: Vec<u64>,
}

impl Marketplace {
    /// Job `i` is consistent with its id, its limits, its derivation and its
    /// holding balance.
    pub open spec fn job_wf(&self, i: int) -> bool {
        let j = self.jobs@[i];
        &&& j.id == i
        &&& j.payment_amount > 0
        &&& j.title@.len() <= MAX_TITLE_LEN
        &&& j.description@.len() <= MAX_DESCRIPTION_LEN
        &&& job_authority(self.program_id, j.id, j.bump) is Some
        &&& self.holdings@[i] == if j.status.holds_escrow() {
            j.payment_amount
        } else {
            0
        }
        &&& j.status is Open ==> j.worker is None && j.submission_uri is None
        &&& j.status is Submitted ==> j.worker is Some && j.submission_uri is Some
        &&& j.submission_uri matches Some(u) ==> u@.len() <= MAX_SUBMISSION_URI_LEN
    }

    /// The deployment's invariant.
    pub open spec fn wf(&self) -> bool {
        &&& self.config.platform_fee_bps <= 10000
        &&& self.jobs@.len() == self.config.total_jobs
        &&& self.holdings@.len() == self.jobs@.len()
        &&& forall|i: int| 0 <= i < self.jobs@.len() ==> #[trigger] self.job_wf(i)
    }

    /// What one operation may change: settings and existing jobs' fixed
    /// fields stay, the job counter only grows by new jobs, and each existing
    /// job stays or takes one step of its lifecycle.
    pub open spec fn evolves_to(&self, next: &Marketplace) -> bool {
        &&& next.program_id == self.program_id
        &&& next.config.admin == self.config.admin
        &&& next.config.platform_fee_bps == self.config.platform_fee_bps
        &&& next.config.total_jobs >= self.config.total_jobs
        &&& next.jobs@.len() >= self.jobs@.len()
        &&& forall|i: int|
            0 <= i < self.jobs@.len() ==> job_step(#[trigger] self.jobs@[i], next.jobs@[i])
    }

    /// An operation that changes job `i` alone, within one step of its
    /// lifecycle and keeping it consistent, keeps the invariant and is an
    /// allowed evolution.
    proof fn lemma_one_job_changed(prev: Marketplace, next: Marketplace, i: int)
        requires
            prev.wf(),
            0 <= i < prev.jobs@.len(),
            next.program_id == prev.program_id,
            next.config.admin == prev.config.admin,
            next.config.platform_fee_bps == prev.config.platform_fee_bps,
            next.config.total_jobs == prev.config.total_jobs,
            next.jobs@.len() == prev.jobs@.len(),
            next.holdings@.len() == prev.holdings@.len(),
            forall|k: int|
                0 <= k < prev.jobs@.len() && k != i ==> next.jobs@[k] == prev.jobs@[k]
                    && next.holdings@[k] == prev.holdings@[k],
            next.job_wf(i),
            job_step(prev.jobs@[i], next.jobs@[i]),
        ensures
            next.wf(),
            prev.evolves_to(&next),
    {
        assert forall|k: int| 0 <= k < next.jobs@.len() implies #[trigger] next.job_wf(k) by {
            assert(prev.job_wf(k));
        }
        assert forall|k: int| 0 <= k < prev.jobs@.len() implies job_step(
            #[trigger] prev.jobs@[k],
            next.jobs@[k],
        ) by {
            assert(prev.job_wf(k));
        }
    }

    /// The two deployments hold the same settings, jobs and balances.
    pub open spec fn same_as(&self, other: &Marketplace) -> bool {
        &&& self.program_id == other.program_id
        &&& self.config == other.config
        &&& self.jobs@ == other.jobs@
        &&& self.holdings@ == other.holdings@
    }

    /// Whether `id` names a job.
    pub open spec fn has_job(&self, id: u64) -> bool {
        id < self.jobs@.len()
    }

    /// The job named `id`.
    pub open spec fn job_spec(&self, id: u64) -> Job {
        self.jobs@[id as int]
    }

    /// A new deployment with no jobs, charging `platform_fee_bps`.
    pub fn initialize(program_id: Identity, admin: Identity, platform_fee_bps: u16) -> (r:
        Marketplace)
        requires
            platform_fee_bps <= 10000,
        ensures
            r.wf(),
            r.program_id == program_id,
            r.config == (Config { admin, platform_fee_bps, total_jobs: 0, total_completed: 0 }),
            r.jobs@.len() == 0,
    {
        Marketplace {
            program_id,
            config: Config { admin, platform_fee_bps, total_jobs: 0, total_completed: 0 },
            jobs: Vec::new(),
            holdings: Vec::new(),
        }
    }
    /// `next` is this deployment with one more job: the one `client` posted
    /// with these inputs at `created_at`, open and funded, derived with `bump`.
    pub open spec fn posted(
        &self,
        next: &Marketplace,
        client: Identity,
        title: String,
        description: String,
        payment_amount: u64,
        created_at: i64,
        bump: u8,
    ) -> bool {
        let id = self.config.total_jobs;
        &&& next.program_id == self.program_id
        &&& next.config == (Config { total_jobs: (id + 1) as u64, ..self.config })
        &&& next.jobs@ == self.jobs@.push(
            posted_job(id, client, title, description, payment_amount, created_at, bump),
        )
        &&& next.holdings@ == self.holdings@.push(payment_amount)
    }

    /// Posts a job whose custodial authority is derived with `bump`:
    /// validates the inputs, records the job under the next id, and hands
    /// back that id with the deposit of the payment into the holding account.
    pub fn open_job(
        &mut self,
        client: Identity,
        title: String,
        description: String,
        payment_amount: u64,
        created_at: i64,
        bump: u8,
    ) -> (r: Result<(u64, Transfer), GigZeroError>)
        requires
            old(self).wf(),
            job_authority(old(self).program_id, old(self).config.total_jobs, bump) is Some,
        ensures
            final(self).wf(),
            old(self).evolves_to(final(self)),
            post_error(title@, description@, payment_amount) matches Some(e) ==> r == Err::<
                (u64, Transfer),
                GigZeroError,
            >(e),
            post_error(title@, description@, payment_amount) is None && old(self).config.total_jobs
                == u64::MAX ==> r == Err::<(u64, Transfer), GigZeroError>(
                GigZeroError::ArithmeticOverflow,
            ),
            r is Err ==> final(self).same_as(old(self)),
            post_error(title@, description@, payment_amount) is None && old(self).config.total_jobs
                < u64::MAX ==> {
                &&& r == Ok::<(u64, Transfer), GigZeroError>(
                    (old(self).config.total_jobs, deposit_transfer(payment_amount)),
                )
                &&& old(self).posted(
                    final(self),
                    client,
                    title,
                    description,
                    payment_amount,
                    created_at,
                    bump,
                )
            },
    {
        let id = self.config.total_jobs;
        match lifecycle::post_job(
            &mut self.config,
            client,
            title,
            description,
            payment_amount,
            created_at,
            bump,
        ) {
            Ok((job, deposit)) => {
                self.jobs.push(job);
                self.holdings.push(payment_amount);
                proof {
                    assert forall|i: int| 0 <= i < self.jobs@.len() implies #[trigger] self.job_wf(
                        i,
                    ) by {
                        if i < id {
                            assert(old(self).job_wf(i));
                        }
                    }
                }
                Ok((id, deposit))
            },
            Err(e) => Err(e),
        }
    }

    /// Posts a job: as [`Marketplace::open_job`], with the highest bump from
    /// 255 down to 1 that derives an address for the next id. Fails with
    /// `InvalidAuthority` exactly where no such bump exists.
    pub fn post_job(
        &mut self,
        client: Identity,
        title: String,
        description: String,
        payment_amount: u64,
        created_at: i64,
    ) -> (r: Result<(u64, Transfer), GigZeroError>)
        requires
            old(self).wf(),
        ensures
            final(self).wf(),
            old(self).evolves_to(final(self)),
            post_error(title@, description@, payment_amount) matches Some(e) ==> r == Err::<
                (u64, Transfer),
                GigZeroError,
            >(e),
            post_error(title@, description@, payment_amount) is None && old(self).config.total_jobs
                == u64::MAX ==> r == Err::<(u64, Transfer), GigZeroError>(
                GigZeroError::ArithmeticOverflow,
            ),
            r is Err ==> final(self).same_as(old(self)),
            post_error(title@, description@, payment_amount) is None && old(self).config.total_jobs
                < u64::MAX ==> {
                ||| r == Err::<(u64, Transfer), GigZeroError>(GigZeroError::InvalidAuthority)
                ||| {
                    &&& r == Ok::<(u64, Transfer), GigZeroError>(
                        (old(self).config.total_jobs, deposit_transfer(payment_amount)),
                    )
                    &&& old(self).posted(
                        final(self),
                        client,
                        title,
                        description,
                        payment_amount,
                        created_at,
                        final(self).jobs@.last().bump,
                    )
                }
            },
            post_error(title@, description@, payment_amount) is None && old(self).config.total_jobs
                < u64::MAX && (exists|b: u8|
                1 <= b && (#[trigger] job_authority(
                    old(self).program_id,
                    old(self).config.total_jobs,
                    b,
                )) is Some) ==> r is Ok,
            r is Ok ==> {
                let bump = final(self).jobs@.last().bump;
                &&& bump >= 1
                &&& forall|c: u8|
                    c > bump ==> (#[trigger] job_authority(
                        old(self).program_id,
                        old(self).config.total_jobs,
                        c,
                    )) is None
            },
    {
        if title.as_str().unicode_len() > MAX_TITLE_LEN {
            return Err(GigZeroError::TitleTooLong);
        }
        if description.as_str().unicode_len() > MAX_DESCRIPTION_LEN {
            return Err(GigZeroError::DescriptionTooLong);
        }
        if payment_amount == 0 {
            return Err(GigZeroError::InvalidPayment);
        }
        if self.config.total_jobs == u64::MAX {
            return Err(GigZeroError::ArithmeticOverflow);
        }
        match find_job_bump(&self.program_id, self.config.total_jobs) {
            Some(bump) => self.open_job(client, title, description, payment_amount, created_at, bump),
            None => Err(GigZeroError::InvalidAuthority),
        }
    }
    /// The index of job `id` in `jobs`, if there is such a job.
    fn job_index(&self, id: u64) -> (r: Option<usize>)
        ensures
            r is Some <==> self.has_job(id),
            r matches Some(i) ==> i == id,
    {
        if id < self.jobs.len() as u64 {
            Some(id as usize)
        } else {
            None
        }
    }

    /// Records `worker`'s submission `submission_uri` for open job `job_id`.
    /// Anyone may submit; the job then waits for the client's decision.
    pub fn submit_work(&mut self, job_id: u64, worker: Identity, submission_uri: String) -> (r:
        Result<(), GigZeroError>)
        requires
            old(self).wf(),
        ensures
            final(self).wf(),
            old(self).evolves_to(final(self)),
            r == match submit_error(*old(self), job_id, submission_uri@) {
                Some(e) => Err::<(), GigZeroError>(e),
                None => Ok(()),
            },
            r is Err ==> final(self).same_as(old(self)),
            r is Ok ==> {
                &&& final(self).program_id == old(self).program_id
                &&& final(self).config == old(self).config
                &&& final(self).holdings@ == old(self).holdings@
                &&& final(self).jobs@ == old(self).jobs@.update(
                    job_id as int,
                    Job {
                        status: JobStatus::Submitted,
                        worker: Some(worker),
                        submission_uri: Some(submission_uri),
                        ..old(self).job_spec(job_id)
                    },
                )
            },
    {
        let i = match self.job_index(job_id) {
            Some(i) => i,
            None => return Err(GigZeroError::UnknownJob),
        };
        proof {
            assert(old(self).job_wf(i as int));
        }
        let r = lifecycle::submit_work(&mut self.jobs[i], worker, submission_uri);
        proof {
            Self::lemma_one_job_changed(*old(self), *self, i as int);
            if r is Err {
                assert(self.jobs@ =~= old(self).jobs@);
            }
        }
        r
    }

    /// Sends submitted job `job_id` back to open, at the request of its
    /// client: the submission is dropped and the payment stays in escrow.
    pub fn reject_work(&mut self, job_id: u64, caller: Identity) -> (r: Result<(), GigZeroError>)
        requires
            old(self).wf(),
        ensures
            final(self).wf(),
            old(self).evolves_to(final(self)),
            r == match client_op_error(
                *old(self),
                job_id,
                caller,
                JobStatus::Submitted,
                GigZeroError::NoSubmission,
            ) {
                Some(e) => Err::<(), GigZeroError>(e),
                None => Ok(()),
            },
            r is Err ==> final(self).same_as(old(self)),
            r is Ok ==> {
                &&& final(self).program_id == old(self).program_id
                &&& final(self).config == old(self).config
                &&& final(self).holdings@ == old(self).holdings@
                &&& final(self).holdings@[job_id as int] == old(self).job_spec(job_id).payment_amount
                &&& final(self).jobs@ == old(self).jobs@.update(
                    job_id as int,
                    Job {
                        status: JobStatus::Open,
                        worker: None,
                        submission_uri: None,
                        ..old(self).job_spec(job_id)
                    },
                )
            },
    {
        let i = match self.job_index(job_id) {
            Some(i) => i,
            None => return Err(GigZeroError::UnknownJob),
        };
        proof {
            assert(old(self).job_wf(i as int));
        }
        let r = lifecycle::reject_work(&mut self.jobs[i], caller);
        proof {
            Self::lemma_one_job_changed(*old(self), *self, i as int);
            if r is Err {
                assert(self.jobs@ =~= old(self).jobs@);
            }
        }
        r
    }
    /// Approves submitted job `job_id` at the request of its client: the
    /// payment is split by the platform's rate, the net goes to the worker
    /// and the fee (when not zero) to the treasury, both out of the holding
    /// account under the job's derived authority, which is emptied.
    pub fn approve_work(&mut self, job_id: u64, caller: Identity) -> (r: Result<
        Settlement,
        GigZeroError,
    >)
        requires
            old(self).wf(),
        ensures
            final(self).wf(),
            old(self).evolves_to(final(self)),
            client_op_error(
                *old(self),
                job_id,
                caller,
                JobStatus::Submitted,
                GigZeroError::NoSubmission,
            ) matches Some(e) ==> (r matches Err(f) && f == e),
            client_op_error(
                *old(self),
                job_id,
                caller,
                JobStatus::Submitted,
                GigZeroError::NoSubmission,
            ) is None && old(self).config.total_completed == u64::MAX ==> (r matches Err(f) && f
                == GigZeroError::ArithmeticOverflow),
            client_op_error(
                *old(self),
                job_id,
                caller,
                JobStatus::Submitted,
                GigZeroError::NoSubmission,
            ) is None && old(self).config.total_completed < u64::MAX ==> r is Ok,
            r is Err ==> final(self).same_as(old(self)),
            r matches Ok(s) ==> {
                let job = old(self).job_spec(job_id);
                &&& job.worker == Some(s.payee)
                &&& s.transfers@ == approval_transfers(
                    job.payment_amount,
                    old(self).config.platform_fee_bps,
                )
                &&& holding_outflow(s.transfers@) == old(self).holdings@[job_id as int]
                &&& job_authority(old(self).program_id, job_id, job.bump) == Some(
                    s.capability.address@,
                )
                &&& s.capability.seeds.deep_view() == job_seeds(job_id, job.bump)
                &&& final(self).program_id == old(self).program_id
                &&& final(self).config == (Config {
                    total_completed: (old(self).config.total_completed + 1) as u64,
                    ..old(self).config
                })
                &&& final(self).holdings@ == old(self).holdings@.update(job_id as int, 0)
                &&& final(self).jobs@ == old(self).jobs@.update(
                    job_id as int,
                    Job { status: JobStatus::Completed, ..job },
                )
            },
    {
        let i = match self.job_index(job_id) {
            Some(i) => i,
            None => return Err(GigZeroError::UnknownJob),
        };
        proof {
            assert(old(self).job_wf(i as int));
            lemma_fee_within_payment(
                self.jobs@[i as int].payment_amount as nat,
                self.config.platform_fee_bps as nat,
            );
        }
        let r = lifecycle::approve_work(&mut self.jobs[i], &mut self.config, &self.program_id, caller);
        if r.is_ok() {
            self.holdings.set(i, 0);
        }
        proof {
            Self::lemma_one_job_changed(*old(self), *self, i as int);
            if r is Err {
                assert(self.jobs@ =~= old(self).jobs@);
            }
        }
        r
    }

    /// Cancels open job `job_id` at the request of its client: the whole
    /// payment goes back from the holding account to the client under the
    /// job's derived authority, and the holding account is emptied.
    pub fn cancel_job(&mut self, job_id: u64, caller: Identity) -> (r: Result<
        Settlement,
        GigZeroError,
    >)
        requires
            old(self).wf(),
        ensures
            final(self).wf(),
            old(self).evolves_to(final(self)),
            client_op_error(
                *old(self),
                job_id,
                caller,
                JobStatus::Open,
                GigZeroError::JobNotOpen,
            ) matches Some(e) ==> (r matches Err(f) && f == e),
            client_op_error(
                *old(self),
                job_id,
                caller,
                JobStatus::Open,
                GigZeroError::JobNotOpen,
            ) is None ==> r is Ok,
            r is Err ==> final(self).same_as(old(self)),
            r matches Ok(s) ==> {
                let job = old(self).job_spec(job_id);
                &&& s.payee == job.client
                &&& s.transfers@ == refund_transfers(job.payment_amount)
                &&& holding_outflow(s.transfers@) == old(self).holdings@[job_id as int]
                &&& job_authority(old(self).program_id, job_id, job.bump) == Some(
                    s.capability.address@,
                )
                &&& s.capability.seeds.deep_view() == job_seeds(job_id, job.bump)
                &&& final(self).program_id == old(self).program_id
                &&& final(self).config == old(self).config
                &&& final(self).holdings@ == old(self).holdings@.update(job_id as int, 0)
                &&& final(self).jobs@ == old(self).jobs@.update(
                    job_id as int,
                    Job { status: JobStatus::Cancelled, ..job },
                )
            },
    {
        let i = match self.job_index(job_id) {
            Some(i) => i,
            None => return Err(GigZeroError::UnknownJob),
        };
        proof {
            assert(old(self).job_wf(i as int));
        }
        let r = lifecycle::cancel_job(&mut self.jobs[i], &self.program_id, caller);
        if r.is_ok() {
            self.holdings.set(i, 0);
        }
        proof {
            Self::lemma_one_job_changed(*old(self), *self, i as int);
            if r is Err {
                assert(self.jobs@ =~= old(self).jobs@);
            }
        }
        r
    }
    /// The job named `job_id`, if any.
    pub fn job(&self, job_id: u64) -> (r: Option<&Job>)
        ensures
            r is Some <==> self.has_job(job_id),
            r matches Some(j) ==> *j == self.job_spec(job_id),
    {
        match self.job_index(job_id) {
            Some(i) => Some(&self.jobs[i]),
            None => None,
        }
    }

    /// The balance of job `job_id`'s holding account, if there is such a job.
    pub fn holding_balance(&self, job_id: u64) -> (r: Option<u64>)
        requires
            self.wf(),
        ensures
            r is Some <==> self.has_job(job_id),
            r matches Some(b) ==> b == self.holdings@[job_id as int],
    {
        match self.job_index(job_id) {
            Some(i) => Some(self.holdings[i]),
            None => None,
        }
    }
}

} // verus!
