//! The token movements that operations hand to the host, and what they
//! take out of a job's holding account.
use vstd::prelude::*;

use crate::authority::{Capability, Identity};
use crate::fee::fee_of;

verus! {

/// A token account that an operation moves funds between.
#[derive(Clone, Copy, Debug, PartialEq, Eq, Structural)]
pub enum Account {
    /// The client's own funding account.
    ClientFunds,
    /// The job's holding account.
    Holding,
    /// The worker's receiving account.
    WorkerFunds,
    /// The platform's treasury.
    Treasury,
}

/// Who authorises a transfer.
#[derive(Clone, Copy, Debug, PartialEq, Eq, Structural)]
pub enum Signer {
    /// The client, as owner of the source account.
    Client,
    /// The job's derived authority.
    Job,
}

/// One movement of tokens for the host to perform.
#[derive(Clone, Copy, Debug, PartialEq, Eq, Structural)]
pub struct Transfer {
    pub from: Account,
    pub to: Account,
    pub amount: u64,
    pub signer: Signer,
}

/// The transfers out of a job's holding account, with the capability that
/// authorises them.
#[derive(Debug)]
pub struct Settlement {
    pub capability: Capability,
    /// The owner of the account that receives the main payout: the worker
    /// on approval, the client on cancellation.
    pub payee: Identity,
    pub transfers: Vec<Transfer>,
}

/// The total that `ts` moves out of the holding account.
pub open spec fn holding_outflow(ts: Seq<Transfer>) -> int
    decreases ts.len(),
{
    if ts.len() == 0 {
        0
    } else {
        holding_outflow(ts.drop_last()) + if ts.last().from is Holding {
            ts.last().amount as int
        } else {
            0
        }
    }
}

/// Appending a transfer adds its amount to the outflow when it leaves the
/// holding account.
pub proof fn lemma_holding_outflow_push(ts: Seq<Transfer>, t: Transfer)
    ensures
        holding_outflow(ts.push(t)) == holding_outflow(ts) + if t.from is Holding {
            t.amount as int
        } else {
            0
        },
{
    assert(ts.push(t).drop_last() =~= ts);
}

/// The payout transfers of an approved job with payment `payment` at fee
/// rate `fee_bps`: the net to the worker, then the fee to the treasury
/// where it is not zero.
pub open spec fn approval_transfers(payment: u64, fee_bps: u16) -> Seq<Transfer> {
    let fee = fee_of(payment as nat, fee_bps as nat);
    let to_worker = Transfer {
        from: Account::Holding,
        to: Account::WorkerFunds,
        amount: (payment - fee) as u64,
        signer: Signer::Job,
    };
    if fee > 0 {
        seq![
            to_worker,
            Transfer {
                from: Account::Holding,
                to: Account::Treasury,
                amount: fee as u64,
                signer: Signer::Job,
            },
        ]
    } else {
        seq![to_worker]
    }
}

/// The refund transfer of a cancelled job with payment `payment`.
pub open spec fn refund_transfers(payment: u64) -> Seq<Transfer> {
    seq![
        Transfer {
            from: Account::Holding,
            to: Account::ClientFunds,
            amount: payment,
            signer: Signer::Job,
        },
    ]
}

/// The deposit that funds a new job with payment `payment`.
pub open spec fn deposit_transfer(payment: u64) -> Transfer {
    Transfer {
        from: Account::ClientFunds,
        to: Account::Holding,
        amount: payment,
        signer: Signer::Client,
    }
}

} // verus!
