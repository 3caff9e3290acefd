//! Splitting a payment between the platform and the worker.
use vstd::prelude::*;

use crate::error::GigZeroError;

verus! {

/// Basis points in one whole (100 bps = 1%).
pub const BPS_DENOMINATOR: u64 = 10000;

/// The platform's share of `payment_amount` at `fee_bps` basis points,
/// rounded down so that any remainder goes to the worker.
pub open spec fn fee_of(payment_amount: nat, fee_bps: nat) -> nat {
    (payment_amount * fee_bps) / 10000
}

/// At a rate of at most 10000 bps the fee never exceeds the payment.
pub proof fn lemma_fee_within_payment(payment_amount: nat, fee_bps: nat)
    requires
        fee_bps <= 10000,
    ensures
        fee_of(payment_amount, fee_bps) <= payment_amount,
{
    assert(payment_amount * fee_bps <= payment_amount * 10000) by (nonlinear_arith)
        requires fee_bps <= 10000;
    assert(fee_of(payment_amount, fee_bps) <= payment_amount) by (nonlinear_arith)
        requires payment_amount * fee_bps <= payment_amount * 10000;
}

/// How a payment is divided on approval.
#[derive(Clone, Copy, Debug, PartialEq, Eq, Structural)]
pub struct FeeSplit {
    /// The platform's share.
    pub fee: u64,
    /// What remains for the worker.
    pub worker_net: u64,
}

/// Splits `payment_amount` into the platform fee and the worker's net, the
/// product being taken in 128 bits. Fails, rather than wrapping, when the fee
/// would exceed the payment (a rate above 10000 bps).
pub fn split_fee(payment_amount: u64, fee_bps: u16) -> (r: Result<FeeSplit, GigZeroError>)
    ensures
        r is Ok <==> fee_of(payment_amount as nat, fee_bps as nat) <= payment_amount,
        r is Err ==> r == Err::<FeeSplit, GigZeroError>(GigZeroError::ArithmeticOverflow),
        r matches Ok(s) ==> {
            &&& s.fee == fee_of(payment_amount as nat, fee_bps as nat)
            &&& s.fee + s.worker_net == payment_amount
        },
        fee_bps <= 10000 ==> r is Ok,
{
    proof {
        assert(payment_amount as nat * fee_bps as nat <= 0xffff_ffff_ffff_ffff * 0xffff)
            by (nonlinear_arith)
            requires payment_amount <= 0xffff_ffff_ffff_ffffu64, fee_bps <= 0xffffu16;
        if fee_bps <= 10000 {
            lemma_fee_within_payment(payment_amount as nat, fee_bps as nat);
        }
    }
    let product: u128 = (payment_amount as u128) * (fee_bps as u128);
    let fee_wide: u128 = product / (BPS_DENOMINATOR as u128);
    if fee_wide > payment_amount as u128 {
        return Err(GigZeroError::ArithmeticOverflow);
    }
    let fee = fee_wide as u64;
    Ok(FeeSplit { fee, worker_net: payment_amount - fee })
}

} // verus!
