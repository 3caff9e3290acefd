//! The lifecycle of one job record: each transition checks its
//! preconditions, changes the record, and hands back the transfers that go
//! with it. A refused transition changes nothing.
use vstd::prelude::*;

use crate::authority::{authority_of, job_authority, job_seeds, same_identity, Identity};
use crate::error::GigZeroError;
use crate::fee::{fee_of, split_fee};
use crate::job::{
    Config, Job, JobStatus, MAX_DESCRIPTION_LEN, MAX_SUBMISSION_URI_LEN, MAX_TITLE_LEN,
};
use crate::transfer::{
    approval_transfers, deposit_transfer, holding_outflow, lemma_holding_outflow_push,
    refund_transfers, Account, Settlement, Signer, Transfer,
};

verus! {

/// The first rule that posting a job with these inputs breaks, if any.
pub open spec fn post_error(title: Seq<char>, description: Seq<char>, payment_amount: u64) -> Option<
    GigZeroError,
> {
    if title.len() > MAX_TITLE_LEN {
        Some(GigZeroError::TitleTooLong)
    } else if description.len() > MAX_DESCRIPTION_LEN {
        Some(GigZeroError::DescriptionTooLong)
    } else if payment_amount == 0 {
        Some(GigZeroError::InvalidPayment)
    } else {
        None
    }
}

/// The first rule that submitting `uri` for `job` breaks, if any.
pub open spec fn submission_error(job: Job, uri: Seq<char>) -> Option<GigZeroError> {
    if uri.len() > MAX_SUBMISSION_URI_LEN {
        Some(GigZeroError::SubmissionUriTooLong)
    } else if job.status != JobStatus::Open {
        Some(GigZeroError::JobNotOpen)
    } else {
        None
    }
}

/// The first rule that a transition of `job` needing status `needed` and
/// the client as caller breaks, if any; `wrong_status` is its error for
/// any other status.
pub open spec fn client_error(
    job: Job,
    caller: Identity,
    needed: JobStatus,
    wrong_status: GigZeroError,
) -> Option<GigZeroError> {
    if job.status != needed {
        Some(wrong_status)
    } else if job.client@ != caller@ {
        Some(GigZeroError::NotJobClient)
    } else {
        None
    }
}

/// The first rule that approving `job` at the request of `caller` breaks,
/// if any: the job must hold a submission and the caller be its client.
pub open spec fn approval_error(job: Job, caller: Identity) -> Option<GigZeroError> {
    if job.status != JobStatus::Submitted || job.worker is None {
        Some(GigZeroError::NoSubmission)
    } else if job.client@ != caller@ {
        Some(GigZeroError::NotJobClient)
    } else {
        None
    }
}

/// The record of a newly posted job.
pub open spec fn posted_job(
    id: u64,
    client: Identity,
    title: String,
    description: String,
    payment_amount: u64,
    created_at: i64,
    bump: u8,
) -> Job {
    Job {
        id,
        client,
        title,
        description,
        payment_amount,
        status: JobStatus::Open,
        worker: None,
        submission_uri: None,
        created_at,
        bump,
    }
}

/// Creates the record of a job that `client` posts, under the next id of
/// `config`, which counts it; hands back the record and the deposit of the
/// payment into the job's holding account, which the client authorises.
pub fn post_job(
    config: &mut Config,
    client: Identity,
    title: String,
    description: String,
    payment_amount: u64,
    created_at: i64,
    bump: u8,
) -> (r: Result<(Job, Transfer), GigZeroError>)
    ensures
        post_error(title@, description@, payment_amount) matches Some(e) ==> r == Err::<
            (Job, Transfer),
            GigZeroError,
        >(e),
        post_error(title@, description@, payment_amount) is None && old(config).total_jobs
            == u64::MAX ==> r == Err::<(Job, Transfer), GigZeroError>(
            GigZeroError::ArithmeticOverflow,
        ),
        r is Err ==> *final(config) == *old(config),
        post_error(title@, description@, payment_amount) is None && old(config).total_jobs
            < u64::MAX ==> {
            &&& r == Ok::<(Job, Transfer), GigZeroError>(
                (
                    posted_job(
                        old(config).total_jobs,
                        client,
                        title,
                        description,
                        payment_amount,
                        created_at,
                        bump,
                    ),
                    deposit_transfer(payment_amount),
                ),
            )
            &&& *final(config) == (Config {
                total_jobs: (old(config).total_jobs + 1) as u64,
                ..*old(config)
            })
        },
{
    if title.as_str().unicode_len() > MAX_TITLE_LEN {
        return Err(GigZeroError::TitleTooLong);
    }
    if description.as_str().unicode_len() > MAX_DESCRIPTION_LEN {
        return Err(GigZeroError::DescriptionTooLong);
    }
    if payment_amount == 0 {
        return Err(GigZeroError::InvalidPayment);
    }
    if config.total_jobs == u64::MAX {
        return Err(GigZeroError::ArithmeticOverflow);
    }
    let id = config.total_jobs;
    config.total_jobs = id + 1;
    let job = Job {
        id,
        client,
        title,
        description,
        payment_amount,
        status: JobStatus::Open,
        worker: None,
        submission_uri: None,
        created_at,
        bump,
    };
    let deposit = Transfer {
        from: Account::ClientFunds,
        to: Account::Holding,
        amount: payment_amount,
        signer: Signer::Client,
    };
    Ok((job, deposit))
}

/// Records `worker`'s submission `submission_uri` for an open job. Anyone
/// may submit; the job then waits for the client's decision.
pub fn submit_work(job: &mut Job, worker: Identity, submission_uri: String) -> (r: Result<
    (),
    GigZeroError,
>)
    ensures
        r == match submission_error(*old(job), submission_uri@) {
            Some(e) => Err::<(), GigZeroError>(e),
            None => Ok(()),
        },
        r is Err ==> *final(job) == *old(job),
        r is Ok ==> *final(job) == (Job {
            status: JobStatus::Submitted,
            worker: Some(worker),
            submission_uri: Some(submission_uri),
            ..*old(job)
        }),
{
    if submission_uri.as_str().unicode_len() > MAX_SUBMISSION_URI_LEN {
        return Err(GigZeroError::SubmissionUriTooLong);
    }
    if job.status != JobStatus::Open {
        return Err(GigZeroError::JobNotOpen);
    }
    job.worker = Some(worker);
    job.submission_uri = Some(submission_uri);
    job.status = JobStatus::Submitted;
    Ok(())
}

/// Sends a submitted job back to open at the request of its client: the
/// submission is dropped and the payment stays in escrow.
pub fn reject_work(job: &mut Job, caller: Identity) -> (r: Result<(), GigZeroError>)
    ensures
        r == match client_error(*old(job), caller, JobStatus::Submitted, GigZeroError::NoSubmission) {
            Some(e) => Err::<(), GigZeroError>(e),
            None => Ok(()),
        },
        r is Err ==> *final(job) == *old(job),
        r is Ok ==> *final(job) == (Job {
            status: JobStatus::Open,
            worker: None,
            submission_uri: None,
            ..*old(job)
        }),
{
    if job.status != JobStatus::Submitted {
        return Err(GigZeroError::NoSubmission);
    }
    if !same_identity(&job.client, &caller) {
        return Err(GigZeroError::NotJobClient);
    }
    job.worker = None;
    job.submission_uri = None;
    job.status = JobStatus::Open;
    Ok(())
}

/// Approves a submitted job at the request of its client: the payment is
/// split at the platform's rate, the net goes to the recorded worker (the
/// settlement's payee) and the fee
/// (when not zero) to the treasury, both out of the holding account under the
/// job's derived authority; the job is completed and counted.
pub fn approve_work(job: &mut Job, config: &mut Config, program_id: &Identity, caller: Identity) -> (r:
    Result<Settlement, GigZeroError>)
    ensures
        approval_error(*old(job), caller) matches Some(e) ==> (r matches Err(f) && f == e),
        approval_error(*old(job), caller) is None ==> {
            let fee = fee_of(old(job).payment_amount as nat, old(config).platform_fee_bps as nat);
            let authority = job_authority(*program_id, old(job).id, old(job).bump);
            &&& old(config).total_completed == u64::MAX ==> (r matches Err(f) && f
                == GigZeroError::ArithmeticOverflow)
            &&& old(config).total_completed < u64::MAX && fee > old(job).payment_amount ==> (r matches Err(
                f,
            ) && f == GigZeroError::ArithmeticOverflow)
            &&& old(config).total_completed < u64::MAX && fee <= old(job).payment_amount
                && authority is None ==> (r matches Err(f) && f == GigZeroError::InvalidAuthority)
            &&& old(config).total_completed < u64::MAX && fee <= old(job).payment_amount
                && authority is Some ==> r is Ok
        },
        r is Err ==> *final(job) == *old(job) && *final(config) == *old(config),
        r matches Ok(s) ==> {
            &&& s.transfers@ == approval_transfers(
                old(job).payment_amount,
                old(config).platform_fee_bps,
            )
            &&& holding_outflow(s.transfers@) == old(job).payment_amount
            &&& job_authority(*program_id, old(job).id, old(job).bump) == Some(s.capability.address@)
            &&& s.capability.seeds.deep_view() == job_seeds(old(job).id, old(job).bump)
            &&& old(job).worker == Some(s.payee)
            &&& *final(job) == (Job { status: JobStatus::Completed, ..*old(job) })
            &&& *final(config) == (Config {
                total_completed: (old(config).total_completed + 1) as u64,
                ..*old(config)
            })
        },
{
    if job.status != JobStatus::Submitted {
        return Err(GigZeroError::NoSubmission);
    }
    let payee = match job.worker {
        Some(w) => w,
        None => return Err(GigZeroError::NoSubmission),
    };
    if !same_identity(&job.client, &caller) {
        return Err(GigZeroError::NotJobClient);
    }
    if config.total_completed == u64::MAX {
        return Err(GigZeroError::ArithmeticOverflow);
    }
    let split = match split_fee(job.payment_amount, config.platform_fee_bps) {
        Ok(split) => split,
        Err(e) => return Err(e),
    };
    let capability = match authority_of(program_id, job.id, job.bump) {
        Some(c) => c,
        None => return Err(GigZeroError::InvalidAuthority),
    };
    let mut transfers: Vec<Transfer> = Vec::new();
    transfers.push(
        Transfer {
            from: Account::Holding,
            to: Account::WorkerFunds,
            amount: split.worker_net,
            signer: Signer::Job,
        },
    );
    if split.fee > 0 {
        transfers.push(
            Transfer {
                from: Account::Holding,
                to: Account::Treasury,
                amount: split.fee,
                signer: Signer::Job,
            },
        );
    }
    proof {
        let ts = transfers@;
        assert(ts =~= approval_transfers(job.payment_amount, config.platform_fee_bps));
        let first = ts[0];
        assert(holding_outflow(Seq::<Transfer>::empty()) == 0);
        lemma_holding_outflow_push(Seq::<Transfer>::empty(), first);
        assert(Seq::<Transfer>::empty().push(first) =~= ts.take(1));
        if split.fee > 0 {
            lemma_holding_outflow_push(ts.take(1), ts[1]);
            assert(ts.take(1).push(ts[1]) =~= ts);
        } else {
            assert(ts =~= ts.take(1));
        }
    }
    job.status = JobStatus::Completed;
    config.total_completed = config.total_completed + 1;
    Ok(Settlement { capability, payee, transfers })
}

/// Cancels an open job at the request of its client: the whole payment
/// goes back from the holding account to the client (the settlement's
/// payee) under the job's derived authority.
pub fn cancel_job(job: &mut Job, program_id: &Identity, caller: Identity) -> (r: Result<
    Settlement,
    GigZeroError,
>)
    ensures
        client_error(*old(job), caller, JobStatus::Open, GigZeroError::JobNotOpen) matches Some(e)
            ==> (r matches Err(f) && f == e),
        client_error(*old(job), caller, JobStatus::Open, GigZeroError::JobNotOpen) is None ==> {
            let authority = job_authority(*program_id, old(job).id, old(job).bump);
            &&& authority is None ==> (r matches Err(f) && f == GigZeroError::InvalidAuthority)
            &&& authority is Some ==> r is Ok
        },
        r is Err ==> *final(job) == *old(job),
        r matches Ok(s) ==> {
            &&& s.transfers@ == refund_transfers(old(job).payment_amount)
            &&& holding_outflow(s.transfers@) == old(job).payment_amount
            &&& job_authority(*program_id, old(job).id, old(job).bump) == Some(s.capability.address@)
            &&& s.capability.seeds.deep_view() == job_seeds(old(job).id, old(job).bump)
            &&& s.payee == old(job).client
            &&& *final(job) == (Job { status: JobStatus::Cancelled, ..*old(job) })
        },
{
    if job.status != JobStatus::Open {
        return Err(GigZeroError::JobNotOpen);
    }
    if !same_identity(&job.client, &caller) {
        return Err(GigZeroError::NotJobClient);
    }
    let capability = match authority_of(program_id, job.id, job.bump) {
        Some(c) => c,
        None => return Err(GigZeroError::InvalidAuthority),
    };
    let mut transfers: Vec<Transfer> = Vec::new();
    transfers.push(
        Transfer {
            from: Account::Holding,
            to: Account::ClientFunds,
            amount: job.payment_amount,
            signer: Signer::Job,
        },
    );
    proof {
        assert(transfers@ =~= refund_transfers(job.payment_amount));
        assert(holding_outflow(Seq::<Transfer>::empty()) == 0);
        lemma_holding_outflow_push(Seq::<Transfer>::empty(), transfers@[0]);
        assert(Seq::<Transfer>::empty().push(transfers@[0]) =~= transfers@);
    }
    let payee = job.client;
    job.status = JobStatus::Cancelled;
    Ok(Settlement { capability, payee, transfers })
}

} // verus!
