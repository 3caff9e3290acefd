//! Custodial authority: each job's holding account is controlled by an
//! address derived from the job's id and a stored bump byte, for which no
//! private key exists. A payout out of the holding account is authorised by
//! presenting the seeds of that derivation.
use vstd::prelude::*;

use anchor_lang::prelude::Pubkey;

verus! {

/// An account identity: the 32 bytes of a public key.
pub type Identity = [u8; 32];

/// What the ledger derives from `seeds` under `program_id`: the derived
/// address, or nothing where the candidate is a valid curve point (or the
/// seeds are out of bounds).
pub uninterp spec fn program_address_of(seeds: Seq<Seq<u8>>, program_id: Seq<u8>) -> Option<Seq<u8>>;

/// The ASCII label `job` that every job's seeds start with.
pub open spec fn job_label() -> Seq<u8> {
    seq![106u8, 111u8, 98u8]
}

/// The first `n` little-endian bytes of `v`.
pub open spec fn le_bytes(v: nat, n: nat) -> Seq<u8>
    decreases n,
{
    if n == 0 {
        Seq::empty()
    } else {
        seq![(v % 256) as u8] + le_bytes(v / 256, (n - 1) as nat)
    }
}

/// The seeds of job `id` without the bump: the label and the id's eight
/// little-endian bytes.
pub open spec fn job_base_seeds(id: u64) -> Seq<Seq<u8>> {
    seq![job_label(), le_bytes(id as nat, 8)]
}

/// The full seeds of job `id` with bump `bump`.
pub open spec fn job_seeds(id: u64, bump: u8) -> Seq<Seq<u8>> {
    job_base_seeds(id).push(seq![bump])
}

/// The address that controls job `id`'s holding account, if `bump` derives one.
pub open spec fn job_authority(program_id: Identity, id: u64, bump: u8) -> Option<Seq<u8>> {
    program_address_of(job_seeds(id, bump), program_id@)
}

/// A proof of derived authority: the seeds and the address they derive.
#[derive(Debug)]
pub struct Capability {
    pub address: Identity,
    pub seeds: Vec<Vec<u8>>,
}

/// Relies on `Pubkey::create_program_address` (solana-program, as anchor-lang
/// re-exports it): the address derived from the seeds and the program id, or
/// an error where a seed bound is exceeded or the hash lies on the curve; the
/// outcome depends on its arguments alone.
#[verifier::external_body]
fn create_program_address(seeds: &Vec<Vec<u8>>, program_id: &Identity) -> (r: Option<Identity>)
    ensures
        r matches Some(a) ==> program_address_of(seeds.deep_view(), program_id@) == Some(a@),
        r is None ==> program_address_of(seeds.deep_view(), program_id@) is None,
{
    let slices: Vec<&[u8]> = seeds.iter().map(|s| s.as_slice()).collect();
    Pubkey::create_program_address(&slices, &Pubkey::new_from_array(*program_id))
        .ok()
        .map(|k| k.to_bytes())
}

/// Relies on `Pubkey::try_find_program_address` (solana-program, as
/// anchor-lang re-exports it): it appends a one-byte bump to the seeds and
/// returns the first bump, from 255 down, for which `create_program_address`
/// succeeds, with the address that call returned; it moves on to the next
/// bump only after that call failed, and gives up after bump 1.
#[verifier::external_body]
fn try_find_program_address(seeds: &Vec<Vec<u8>>, program_id: &Identity) -> (r: Option<(Identity, u8)>)
    ensures
        r matches Some((a, b)) ==> {
            &&& b >= 1
            &&& program_address_of(seeds.deep_view().push(seq![b]), program_id@) == Some(a@)
            &&& forall|c: u8|
                c > b ==> (#[trigger] program_address_of(
                    seeds.deep_view().push(seq![c]),
                    program_id@,
                )) is None
        },
        r is None ==> forall|b: u8|
            1 <= b ==> (#[trigger] program_address_of(
                seeds.deep_view().push(seq![b]),
                program_id@,
            )) is None,
{
    let slices: Vec<&[u8]> = seeds.iter().map(|s| s.as_slice()).collect();
    Pubkey::try_find_program_address(&slices, &Pubkey::new_from_array(*program_id))
        .map(|(k, b)| (k.to_bytes(), b))
}

/// The eight little-endian bytes of `v`.
pub fn u64_le_bytes(v: u64) -> (r: Vec<u8>)
    ensures
        r@ == le_bytes(v as nat, 8),
{
    let mut r: Vec<u8> = Vec::new();
    let mut rest: u64 = v;
    let mut i: u64 = 0;
    while i < 8
        invariant
            i <= 8,
            r@ + le_bytes(rest as nat, (8 - i) as nat) == le_bytes(v as nat, 8),
        decreases 8 - i,
    {
        let ghost before = r@;
        let byte = (rest % 256) as u8;
        proof {
            let tail = le_bytes(rest as nat / 256, (8 - i - 1) as nat);
            assert(le_bytes(rest as nat, (8 - i) as nat) == seq![byte] + tail);
            assert(before.push(byte) + tail == before + (seq![byte] + tail));
        }
        r.push(byte);
        rest = rest / 256;
        i = i + 1;
    }
    assert(le_bytes(rest as nat, 0) == Seq::<u8>::empty());
    assert(r@ + Seq::<u8>::empty() == r@);
    r
}

/// The seeds of job `id` without the bump.
pub fn job_base_seed_bytes(id: u64) -> (r: Vec<Vec<u8>>)
    ensures
        r.deep_view() == job_base_seeds(id),
{
    let label: Vec<u8> = vec![106u8, 111u8, 98u8];
    let id_bytes = u64_le_bytes(id);
    assert(label.deep_view() =~= job_label());
    assert(id_bytes.deep_view() =~= le_bytes(id as nat, 8));
    let mut r: Vec<Vec<u8>> = Vec::new();
    r.push(label);
    r.push(id_bytes);
    assert(r.deep_view() =~= job_base_seeds(id));
    r
}

/// The full seeds of job `id` with bump `bump`.
pub fn job_seed_bytes(id: u64, bump: u8) -> (r: Vec<Vec<u8>>)
    ensures
        r.deep_view() == job_seeds(id, bump),
{
    let mut r = job_base_seed_bytes(id);
    let last: Vec<u8> = vec![bump];
    assert(last.deep_view() =~= seq![bump]);
    r.push(last);
    assert(r.deep_view() =~= job_seeds(id, bump));
    r
}

/// Finds the bump for a new job `id`: the highest from 255 down to 1 that
/// derives an address, or `None` where none does.
pub fn find_job_bump(program_id: &Identity, id: u64) -> (r: Option<u8>)
    ensures
        r matches Some(b) ==> {
            &&& b >= 1
            &&& job_authority(*program_id, id, b) is Some
            &&& forall|c: u8| c > b ==> (#[trigger] job_authority(*program_id, id, c)) is None
        },
        r is None ==> forall|b: u8| 1 <= b ==> (#[trigger] job_authority(*program_id, id, b)) is None,
{
    let seeds = job_base_seed_bytes(id);
    assert(forall|b: u8| #[trigger] job_seeds(id, b) == seeds.deep_view().push(seq![b]));
    match try_find_program_address(&seeds, program_id) {
        Some((_, b)) => Some(b),
        None => None,
    }
}

/// The capability that authorises transfers out of job `id`'s holding
/// account, reproduced from the stored bump.
pub fn authority_of(program_id: &Identity, id: u64, bump: u8) -> (r: Option<Capability>)
    ensures
        r is Some <==> job_authority(*program_id, id, bump) is Some,
        r matches Some(c) ==> {
            &&& job_authority(*program_id, id, bump) == Some(c.address@)
            &&& c.seeds.deep_view() == job_seeds(id, bump)
        },
{
    let seeds = job_seed_bytes(id, bump);
    match create_program_address(&seeds, program_id) {
        Some(address) => Some(Capability { address, seeds }),
        None => None,
    }
}

/// Whether two identities are the same.
pub fn same_identity(a: &Identity, b: &Identity) -> (r: bool)
    ensures
        r == (a@ == b@),
{
    let mut i: usize = 0;
    while i < 32
        invariant
            i <= 32,
            forall|j: int| 0 <= j < i ==> a@[j] == b@[j],
        decreases 32 - i,
    {
        if a[i] != b[i] {
            return false;
        }
        i = i + 1;
    }
    assert(a@ =~= b@);
    true
}

} // verus!
