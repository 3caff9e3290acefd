use anchor_lang::prelude::Pubkey;
use gigzero_protocol::authority::{
    authority_of, find_job_bump, job_base_seed_bytes, job_seed_bytes, same_identity, u64_le_bytes,
};
use gigzero_protocol::error::GigZeroError;
use gigzero_protocol::fee::split_fee;
use gigzero_protocol::job::JobStatus;
use gigzero_protocol::marketplace::Marketplace;
use gigzero_protocol::transfer::{Account, Signer, Transfer};

const PROGRAM: [u8; 32] = [7u8; 32];
const ADMIN: [u8; 32] = [1u8; 32];
const CLIENT: [u8; 32] = [2u8; 32];
const WORKER: [u8; 32] = [3u8; 32];
const OTHER_WORKER: [u8; 32] = [4u8; 32];

fn market(fee_bps: u16) -> Marketplace {
    Marketplace::initialize(PROGRAM, ADMIN, fee_bps)
}

fn post_logo(m: &mut Marketplace) -> u64 {
    let (id, deposit) = m
        .post_job(CLIENT, "Logo".to_string(), "Design a logo".to_string(), 1000, 1_700_000_000)
        .unwrap();
    assert_eq!(
        deposit,
        Transfer { from: Account::ClientFunds, to: Account::Holding, amount: 1000, signer: Signer::Client }
    );
    id
}

#[test]
fn post_submit_approve_scenario() {
    let mut m = market(250);
    let id = post_logo(&mut m);
    assert_eq!(id, 0);
    assert_eq!(m.job(0).unwrap().status, JobStatus::Open);
    assert_eq!(m.holding_balance(0), Some(1000));
    assert_eq!(m.config.total_jobs, 1);

    m.submit_work(0, WORKER, "ipfs://abc".to_string()).unwrap();
    let job = m.job(0).unwrap();
    assert_eq!(job.status, JobStatus::Submitted);
    assert_eq!(job.worker, Some(WORKER));
    assert_eq!(job.submission_uri.as_deref(), Some("ipfs://abc"));

    let settlement = m.approve_work(0, CLIENT).unwrap();
    assert_eq!(
        settlement.transfers,
        vec![
            Transfer { from: Account::Holding, to: Account::WorkerFunds, amount: 975, signer: Signer::Job },
            Transfer { from: Account::Holding, to: Account::Treasury, amount: 25, signer: Signer::Job },
        ]
    );
    assert_eq!(m.job(0).unwrap().status, JobStatus::Completed);
    assert_eq!(m.holding_balance(0), Some(0));
    assert_eq!(m.config.total_completed, 1);
}

#[test]
fn reject_then_resubmit_scenario() {
    let mut m = market(250);
    post_logo(&mut m);
    m.submit_work(0, WORKER, "ipfs://abc".to_string()).unwrap();
    m.reject_work(0, CLIENT).unwrap();
    let job = m.job(0).unwrap();
    assert_eq!(job.status, JobStatus::Open);
    assert_eq!(job.worker, None);
    assert_eq!(job.submission_uri, None);
    assert_eq!(m.holding_balance(0), Some(1000));

    m.submit_work(0, OTHER_WORKER, "ipfs://def".to_string()).unwrap();
    let job = m.job(0).unwrap();
    assert_eq!(job.status, JobStatus::Submitted);
    assert_eq!(job.worker, Some(OTHER_WORKER));
}

#[test]
fn zero_payment_is_refused() {
    let mut m = market(250);
    let r = m.post_job(CLIENT, "Logo".to_string(), "Design a logo".to_string(), 0, 0);
    assert_eq!(r.unwrap_err(), GigZeroError::InvalidPayment);
    assert!(m.job(0).is_none());
    assert_eq!(m.config.total_jobs, 0);
    assert_eq!(m.holding_balance(0), None);
}

#[test]
fn long_title_and_description_are_refused() {
    let mut m = market(250);
    let r = m.post_job(CLIENT, "t".repeat(65), "d".to_string(), 5, 0);
    assert_eq!(r.unwrap_err(), GigZeroError::TitleTooLong);
    let r = m.post_job(CLIENT, "t".repeat(64), "d".repeat(513), 5, 0);
    assert_eq!(r.unwrap_err(), GigZeroError::DescriptionTooLong);
    let (id, _) = m.post_job(CLIENT, "t".repeat(64), "d".repeat(512), 5, 0).unwrap();
    assert_eq!(id, 0);
}

#[test]
fn title_length_counts_characters() {
    let mut m = market(0);
    let title = "é".repeat(64);
    assert!(m.post_job(CLIENT, title, "d".to_string(), 5, 0).is_ok());
}

#[test]
fn job_ids_count_up_and_are_not_reused() {
    let mut m = market(100);
    assert_eq!(post_logo(&mut m), 0);
    m.cancel_job(0, CLIENT).unwrap();
    assert_eq!(post_logo(&mut m), 1);
    assert_eq!(post_logo(&mut m), 2);
    assert_eq!(m.config.total_jobs, 3);
}

#[test]
fn long_submission_uri_is_refused() {
    let mut m = market(250);
    post_logo(&mut m);
    let r = m.submit_work(0, WORKER, "u".repeat(257));
    assert_eq!(r, Err(GigZeroError::SubmissionUriTooLong));
    assert_eq!(m.job(0).unwrap().status, JobStatus::Open);
    assert_eq!(m.submit_work(0, WORKER, "u".repeat(256)), Ok(()));
}

#[test]
fn submit_needs_an_open_job() {
    let mut m = market(250);
    assert_eq!(m.submit_work(0, WORKER, "x".to_string()), Err(GigZeroError::UnknownJob));
    post_logo(&mut m);
    m.submit_work(0, WORKER, "x".to_string()).unwrap();
    assert_eq!(m.submit_work(0, OTHER_WORKER, "y".to_string()), Err(GigZeroError::JobNotOpen));
    assert_eq!(m.job(0).unwrap().worker, Some(WORKER));
}

#[test]
fn the_client_may_submit_work_itself() {
    let mut m = market(250);
    post_logo(&mut m);
    assert_eq!(m.submit_work(0, CLIENT, "x".to_string()), Ok(()));
}

#[test]
fn approve_needs_submission_and_client() {
    let mut m = market(250);
    post_logo(&mut m);
    assert_eq!(m.approve_work(0, CLIENT).unwrap_err(), GigZeroError::NoSubmission);
    m.submit_work(0, WORKER, "x".to_string()).unwrap();
    assert_eq!(m.approve_work(0, WORKER).unwrap_err(), GigZeroError::NotJobClient);
    assert_eq!(m.job(0).unwrap().status, JobStatus::Submitted);
    assert_eq!(m.holding_balance(0), Some(1000));
    assert_eq!(m.approve_work(9, CLIENT).unwrap_err(), GigZeroError::UnknownJob);
}

#[test]
fn approve_without_fee_makes_one_transfer() {
    let mut m = market(0);
    post_logo(&mut m);
    m.submit_work(0, WORKER, "x".to_string()).unwrap();
    let settlement = m.approve_work(0, CLIENT).unwrap();
    assert_eq!(
        settlement.transfers,
        vec![Transfer { from: Account::Holding, to: Account::WorkerFunds, amount: 1000, signer: Signer::Job }]
    );
}

#[test]
fn reject_needs_submission_and_client() {
    let mut m = market(250);
    post_logo(&mut m);
    assert_eq!(m.reject_work(0, CLIENT), Err(GigZeroError::NoSubmission));
    m.submit_work(0, WORKER, "x".to_string()).unwrap();
    assert_eq!(m.reject_work(0, WORKER), Err(GigZeroError::NotJobClient));
    assert_eq!(m.reject_work(3, CLIENT), Err(GigZeroError::UnknownJob));
    assert_eq!(m.job(0).unwrap().status, JobStatus::Submitted);
}

#[test]
fn cancel_returns_the_whole_payment() {
    let mut m = market(250);
    post_logo(&mut m);
    assert_eq!(m.cancel_job(0, WORKER).unwrap_err(), GigZeroError::NotJobClient);
    let settlement = m.cancel_job(0, CLIENT).unwrap();
    assert_eq!(
        settlement.transfers,
        vec![Transfer { from: Account::Holding, to: Account::ClientFunds, amount: 1000, signer: Signer::Job }]
    );
    assert_eq!(m.job(0).unwrap().status, JobStatus::Cancelled);
    assert_eq!(m.holding_balance(0), Some(0));
    assert_eq!(m.cancel_job(5, CLIENT).unwrap_err(), GigZeroError::UnknownJob);
}

#[test]
fn cancel_needs_an_open_job() {
    let mut m = market(250);
    post_logo(&mut m);
    m.submit_work(0, WORKER, "x".to_string()).unwrap();
    assert_eq!(m.cancel_job(0, CLIENT).unwrap_err(), GigZeroError::JobNotOpen);
    assert_eq!(m.holding_balance(0), Some(1000));
}

#[test]
fn terminal_jobs_do_not_change() {
    let mut m = market(250);
    post_logo(&mut m);
    m.submit_work(0, WORKER, "x".to_string()).unwrap();
    m.approve_work(0, CLIENT).unwrap();
    assert_eq!(m.submit_work(0, OTHER_WORKER, "y".to_string()), Err(GigZeroError::JobNotOpen));
    assert_eq!(m.reject_work(0, CLIENT), Err(GigZeroError::NoSubmission));
    assert_eq!(m.cancel_job(0, CLIENT).unwrap_err(), GigZeroError::JobNotOpen);
    assert_eq!(m.approve_work(0, CLIENT).unwrap_err(), GigZeroError::NoSubmission);
    let job = m.job(0).unwrap();
    assert_eq!(job.status, JobStatus::Completed);
    assert_eq!(job.worker, Some(WORKER));
    assert_eq!(job.payment_amount, 1000);
    assert_eq!(m.config.total_completed, 1);

    post_logo(&mut m);
    m.cancel_job(1, CLIENT).unwrap();
    assert_eq!(m.submit_work(1, WORKER, "x".to_string()), Err(GigZeroError::JobNotOpen));
    assert_eq!(m.cancel_job(1, CLIENT).unwrap_err(), GigZeroError::JobNotOpen);
    assert_eq!(m.job(1).unwrap().status, JobStatus::Cancelled);
}

#[test]
fn fee_split_exact_values() {
    let s = split_fee(1000, 250).unwrap();
    assert_eq!((s.fee, s.worker_net), (25, 975));
    let s = split_fee(999, 250).unwrap();
    assert_eq!((s.fee, s.worker_net), (24, 975));
    let s = split_fee(1000, 0).unwrap();
    assert_eq!((s.fee, s.worker_net), (0, 1000));
    let s = split_fee(1000, 10000).unwrap();
    assert_eq!((s.fee, s.worker_net), (1000, 0));
    let s = split_fee(u64::MAX, 10000).unwrap();
    assert_eq!((s.fee, s.worker_net), (u64::MAX, 0));
    let s = split_fee(u64::MAX, 9999).unwrap();
    assert_eq!(s.fee + s.worker_net, u64::MAX);
    assert_eq!(s.fee as u128, (u64::MAX as u128 * 9999) / 10000);
}

#[test]
fn fee_above_whole_is_an_arithmetic_error() {
    assert_eq!(split_fee(1000, 10001).unwrap().fee, 1000);
    assert_eq!(split_fee(1000, 10010), Err(GigZeroError::ArithmeticOverflow));
    assert_eq!(split_fee(u64::MAX, 65535), Err(GigZeroError::ArithmeticOverflow));
    assert_eq!(split_fee(0, 65535).unwrap().fee, 0);
}

#[test]
fn le_bytes_of_an_id() {
    assert_eq!(u64_le_bytes(0x0102030405060708), vec![8, 7, 6, 5, 4, 3, 2, 1]);
    assert_eq!(u64_le_bytes(0), vec![0; 8]);
    assert_eq!(job_seed_bytes(1, 254), vec![b"job".to_vec(), vec![1, 0, 0, 0, 0, 0, 0, 0], vec![254]]);
    assert_eq!(job_base_seed_bytes(258), vec![b"job".to_vec(), vec![2, 1, 0, 0, 0, 0, 0, 0]]);
}

#[test]
fn identities_compare_by_every_byte() {
    let mut a = [9u8; 32];
    assert!(same_identity(&a, &[9u8; 32]));
    a[31] = 0;
    assert!(!same_identity(&a, &[9u8; 32]));
}

#[test]
fn derived_authority_matches_the_ledger() {
    let program = Pubkey::new_from_array(PROGRAM);
    let id: u64 = 42;
    let (expected, bump) = Pubkey::find_program_address(&[b"job", &id.to_le_bytes()], &program);
    assert_eq!(find_job_bump(&PROGRAM, id), Some(bump));
    let cap = authority_of(&PROGRAM, id, bump).unwrap();
    assert_eq!(cap.address, expected.to_bytes());
    assert_ne!(cap.address, PROGRAM);
    assert_eq!(cap.seeds, vec![b"job".to_vec(), id.to_le_bytes().to_vec(), vec![bump]]);
}

#[test]
fn approval_carries_the_jobs_authority() {
    let mut m = market(250);
    post_logo(&mut m);
    let bump = m.job(0).unwrap().bump;
    m.submit_work(0, WORKER, "x".to_string()).unwrap();
    let settlement = m.approve_work(0, CLIENT).unwrap();
    let (expected, found) =
        Pubkey::find_program_address(&[b"job", &0u64.to_le_bytes()], &Pubkey::new_from_array(PROGRAM));
    assert_eq!(found, bump);
    assert_eq!(settlement.capability.address, expected.to_bytes());
}

#[test]
fn settlements_name_the_payee() {
    let mut m = market(250);
    post_logo(&mut m);
    m.submit_work(0, WORKER, "x".to_string()).unwrap();
    assert_eq!(m.approve_work(0, CLIENT).unwrap().payee, WORKER);
    post_logo(&mut m);
    assert_eq!(m.cancel_job(1, CLIENT).unwrap().payee, CLIENT);
}

#[test]
fn post_stores_the_highest_working_bump() {
    let mut m = market(250);
    post_logo(&mut m);
    let bump = m.job(0).unwrap().bump;
    assert!(bump >= 1);
    let program = Pubkey::new_from_array(PROGRAM);
    for c in (bump as u16 + 1)..=255 {
        let seeds: [&[u8]; 3] = [b"job", &0u64.to_le_bytes(), &[c as u8]];
        assert!(Pubkey::create_program_address(&seeds, &program).is_err());
    }
}
